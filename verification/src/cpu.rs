pub mod error;
pub mod instr;
pub mod registers;

use vstd::prelude::*;
use vstd::pervasive::VecAdditionalExecFns;

use crate::STACK_SIZE;
use crate::cpu::error::Error;
use crate::cpu::instr::{Instr, InstrCode};
use crate::cpu::registers::{RegClass, Registers, ResolvedReg, resolve, spec_read, spec_resolve, spec_write};
use crate::mem::StackPointer;

verus! {

/// The CPU core: a fixed-capacity, zero-initialized stack buffer plus
/// the register file.  One `Cpu` lives for exactly one program run.
#[derive(Debug, Clone, PartialEq, Eq)]
pub struct Cpu {
    /// The stack buffer; always exactly `STACK_SIZE` bytes.
    pub stack: Vec<u8>,
    /// The register file; `rsp` always points inside the stack buffer.
    pub registers: Registers,
}

/// Padding that rounds `len` up to the next multiple of 8: stack slots
/// are 8-byte aligned, matching the native calling convention.
pub open spec fn pad8(len: nat) -> nat {
    if len % 8 != 0 {
        (8 - len % 8) as nat
    } else {
        0
    }
}

/// Executable twin of `pad8`.
pub fn pad8_exec(len: usize) -> (r: usize)
    ensures
        r == pad8(len as nat),
{
    if len % 8 != 0 {
        8 - (len % 8)
    } else {
        0
    }
}

/// The stack-pointer offset after pushing `len` bytes from offset `off`:
/// the pointer moves down by the alignment padding and then by one per
/// byte, all modulo the stack capacity.
pub open spec fn spec_push_off(off: u64, len: nat) -> int {
    (off - (len + pad8(len))) % (STACK_SIZE as int)
}

/// The stack-pointer offset after popping `len` bytes from offset `off`:
/// the pointer moves up by one per byte and then by the same alignment
/// padding used on push, keeping push and pop symmetric.
pub open spec fn spec_pop_off(off: u64, len: nat) -> int {
    (off + len + pad8(len)) % (STACK_SIZE as int)
}

/// The stack buffer after writing `bytes` so that the first byte lands
/// at offset `off` (the stack-pointer offset after the push) and the
/// rest follow upward, wrapping modulo the buffer length.
pub open spec fn spec_push_stack(stack: Seq<u8>, off: int, bytes: Seq<u8>) -> Seq<u8> {
    Seq::new(
        stack.len(),
        |j: int|
            {
                let rel = (j - off) % (stack.len() as int);
                if rel < bytes.len() {
                    bytes[rel]
                } else {
                    stack[j]
                }
            },
    )
}

/// The `len` bytes read upward from offset `off`, wrapping modulo the
/// stack capacity.
pub open spec fn spec_read_stack(stack: Seq<u8>, off: u64, len: nat) -> Seq<u8> {
    Seq::new(len, |i: int| stack[(off + i) % (STACK_SIZE as int)])
}

/// Reducing the left operand of a modular subtraction first does not
/// change the result.
pub proof fn lemma_mod_sub_cancel(x: int, y: int, c: int)
    requires
        c > 0,
    ensures
        ((x % c) - y) % c == (x - y) % c,
{
    vstd::arithmetic::div_mod::lemma_sub_mod_noop_right(x % c, y, c);
    vstd::arithmetic::div_mod::lemma_sub_mod_noop(x, y, c);
}

/// Reducing the left operand of a modular addition first does not
/// change the result.
pub proof fn lemma_mod_add_cancel(x: int, y: int, c: int)
    requires
        c > 0,
    ensures
        ((x % c) + y) % c == (x + y) % c,
{
    vstd::arithmetic::div_mod::lemma_add_mod_noop_right(x % c, y, c);
    vstd::arithmetic::div_mod::lemma_add_mod_noop(x, y, c);
}

impl Cpu {
    /// The stack buffer has its fixed capacity and the stack pointer is
    /// a well formed pointer into it.
    pub open spec fn wf(&self) -> bool {
        &&& self.stack@.len() == STACK_SIZE
        &&& self.registers.rsp.capacity() == STACK_SIZE
        &&& self.registers.rsp.inv()
    }

    /// A fresh CPU: zeroed stack, zeroed registers, stack pointer at
    /// offset 0 of the stack buffer.
    pub fn new() -> (r: Cpu)
        ensures
            r.wf(),
            r.stack@ == Seq::new(STACK_SIZE as nat, |i: int| 0u8),
            r.registers.rsp.spec_value() == 0,
            r.registers.rsp.capacity() == STACK_SIZE,
            (Registers { rsp: StackPointer::spec_default(), ..r.registers }).is_reset(),
    {
        let mut stack: Vec<u8> = Vec::new();
        let mut i: usize = 0;
        while i < STACK_SIZE as usize
            invariant
                i <= STACK_SIZE,
                stack@.len() == i,
                forall|j: int| 0 <= j < i ==> stack@[j] == 0u8,
            decreases STACK_SIZE - i,
        {
            stack.push(0u8);
            i += 1;
        }
        assert(stack@ =~= Seq::new(STACK_SIZE as nat, |i: int| 0u8));

        let mut registers = Registers::new();
        registers.rsp = StackPointer::new(0, STACK_SIZE);
        proof {
            StackPointer::lemma_spec_default();
        }
        assert((Registers { rsp: StackPointer::spec_default(), ..registers }).is_reset());
        Cpu { stack, registers }
    }

    /// Pushes `value` onto the stack.  Fails with `StackOverflowWrite`,
    /// changing nothing, if `value` is longer than the whole stack.
    /// Otherwise the stack pointer first drops by the alignment padding,
    /// then by one per byte while the bytes are stored last to first, so
    /// the first byte of `value` ends up at the lowest address.
    pub fn push_stack_value(&mut self, value: &[u8]) -> (r: Result<(), Error>)
        requires
            old(self).wf(),
        ensures
            final(self).wf(),
            value@.len() > STACK_SIZE ==> r == Err::<(), Error>(Error::StackOverflowWrite)
                && *final(self) == *old(self),
            value@.len() <= STACK_SIZE ==> {
                &&& r == Ok::<(), Error>(())
                &&& final(self).registers.rsp.spec_value() == spec_push_off(
                    old(self).registers.rsp.spec_value(),
                    value@.len(),
                )
                &&& final(self).registers == (Registers {
                    rsp: final(self).registers.rsp,
                    ..old(self).registers
                })
                &&& final(self).stack@ == spec_push_stack(
                    old(self).stack@,
                    spec_push_off(old(self).registers.rsp.spec_value(), value@.len()),
                    value@,
                )
            },
    {
        let len: usize = value.len();
        if len > self.stack.len() {
            return Err(Error::StackOverflowWrite);
        }
        let pad: u64 = pad8_exec(len) as u64;

        let ghost c: int = STACK_SIZE as int;
        let ghost old_off: int = old(self).registers.rsp.spec_value() as int;
        let ghost f: int = old_off - pad - len;

        proof {
            crate::mem::lemma_sub_mod_is_mod(self.registers.rsp.spec_value(), pad, STACK_SIZE);
        }
        self.registers.rsp = self.registers.rsp.wrapping_sub(pad);
        assert(self.registers.rsp.spec_value() as int == (f + len) % c);

        let mut i: usize = len;
        while i > 0
            invariant
                self.wf(),
                i <= len,
                len == value@.len(),
                len <= STACK_SIZE,
                c == STACK_SIZE as int,
                f == old_off - pad - len,
                self.registers.rsp.spec_value() as int == (f + i) % c,
                self.registers == (Registers { rsp: self.registers.rsp, ..old(self).registers }),
                self.stack@.len() == STACK_SIZE,
                forall|j: int|
                    0 <= j < STACK_SIZE ==> self.stack@[j] == ({
                        let rel = (j - f) % c;
                        if i <= rel < len {
                            value@[rel]
                        } else {
                            old(self).stack@[j]
                        }
                    }),
            decreases i,
        {
            i = i - 1;
            proof {
                crate::mem::lemma_sub_mod_is_mod(self.registers.rsp.spec_value(), 1, STACK_SIZE);
                lemma_mod_sub_cancel(f + i + 1, 1, c);
            }
            self.registers.rsp = self.registers.rsp.wrapping_sub(1);
            let off = self.registers.rsp.value();
            assert(off as int == (f + i) % c);
            let ghost prev = self.stack@;
            self.stack.set(off as usize, value[i]);
            proof {
                lemma_mod_sub_cancel(f + i, f, c);
                vstd::arithmetic::div_mod::lemma_small_mod(i as nat, STACK_SIZE as nat);
                assert(((off as int) - f) % c == i);
                assert forall|j: int| 0 <= j < STACK_SIZE implies self.stack@[j] == ({
                    let rel = (j - f) % c;
                    if i <= rel < len {
                        value@[rel]
                    } else {
                        old(self).stack@[j]
                    }
                }) by {
                    if j != off as int {
                        assert(self.stack@[j] == prev[j]);
                        if (j - f) % c == i {
                            // offsets with the same residue coincide inside the buffer
                            lemma_mod_add_cancel((j - f) % c, f, c);
                            lemma_mod_sub_cancel(j, f, c);
                            assert((j - f + f) % c == (i + f) % c);
                            vstd::arithmetic::div_mod::lemma_small_mod(j as nat, STACK_SIZE as nat);
                            assert(j == (f + i) % c);
                            assert(false);
                        }
                    }
                }
            }
        }
        proof {
            assert forall|j: int| 0 <= j < STACK_SIZE implies self.stack@[j] == spec_push_stack(
                old(self).stack@,
                spec_push_off(old(self).registers.rsp.spec_value(), value@.len()),
                value@,
            )[j] by {
                lemma_mod_sub_cancel(j, f, c);
                vstd::arithmetic::div_mod::lemma_sub_mod_noop_right(j, f, c);
            }
            assert(self.stack@ =~= spec_push_stack(
                old(self).stack@,
                spec_push_off(old(self).registers.rsp.spec_value(), value@.len()),
                value@,
            ));
        }
        Ok(())
    }

    /// Pops `size` bytes off the stack.  Fails with `StackOverflowRead`,
    /// changing nothing, if `size` exceeds the whole stack.  Otherwise
    /// returns the bytes read upward from the current stack pointer
    /// (lowest address first) and moves the pointer up by `size` plus
    /// the alignment padding used on push.
    pub fn pop_stack_value(&mut self, size: usize) -> (r: Result<Vec<u8>, Error>)
        requires
            old(self).wf(),
        ensures
            final(self).wf(),
            final(self).stack@ == old(self).stack@,
            size > STACK_SIZE ==> r == Err::<Vec<u8>, Error>(Error::StackOverflowRead)
                && *final(self) == *old(self),
            size <= STACK_SIZE ==> {
                &&& r is Ok
                &&& r->Ok_0@ == spec_read_stack(
                    old(self).stack@,
                    old(self).registers.rsp.spec_value(),
                    size as nat,
                )
                &&& final(self).registers.rsp.spec_value() == spec_pop_off(
                    old(self).registers.rsp.spec_value(),
                    size as nat,
                )
                &&& final(self).registers == (Registers {
                    rsp: final(self).registers.rsp,
                    ..old(self).registers
                })
            },
    {
        if size > self.stack.len() {
            return Err(Error::StackOverflowRead);
        }
        let pad: u64 = pad8_exec(size) as u64;

        let ghost c: int = STACK_SIZE as int;
        let ghost old_off: int = old(self).registers.rsp.spec_value() as int;

        let mut out: Vec<u8> = Vec::new();
        let mut i: usize = 0;
        while i < size
            invariant
                self.wf(),
                i <= size,
                size <= STACK_SIZE,
                c == STACK_SIZE as int,
                old_off == old(self).registers.rsp.spec_value() as int,
                old_off < STACK_SIZE,
                self.stack@ == old(self).stack@,
                self.registers.rsp.spec_value() as int == (old_off + i) % c,
                self.registers == (Registers { rsp: self.registers.rsp, ..old(self).registers }),
                out@.len() == i,
                forall|k: int|
                    0 <= k < i ==> out@[k] == old(self).stack@[(old_off + k) % c],
            decreases size - i,
        {
            let off = self.registers.rsp.value();
            out.push(self.stack[off as usize]);
            proof {
                lemma_mod_add_cancel(old_off + i, 1, c);
            }
            self.registers.rsp = self.registers.rsp.wrapping_add(1);
            i += 1;
        }
        proof {
            vstd::arithmetic::div_mod::lemma_small_mod(old_off as nat, STACK_SIZE as nat);
            lemma_mod_add_cancel(old_off + size, pad as int, c);
            assert(out@ =~= spec_read_stack(
                old(self).stack@,
                old(self).registers.rsp.spec_value(),
                size as nat,
            ));
        }
        self.registers.rsp = self.registers.rsp.wrapping_add(pad);
        Ok(out)
    }
}

/// The `n` low-order bytes of `value`, least significant first.
pub open spec fn le_bytes_of(value: u64, n: nat) -> Seq<u8> {
    Seq::new(n, |i: int| ((value >> ((8 * i) as u64)) & 0xff) as u8)
}

/// The unsigned integer the byte sequence encodes in little-endian
/// order: each byte contributes its value shifted by eight bits per
/// position.
pub open spec fn le_value_of(bytes: Seq<u8>) -> u64
    recommends
        bytes.len() <= 8,
    decreases bytes.len(),
{
    if bytes.len() == 0 {
        0u64
    } else {
        le_value_of(bytes.drop_last()) | ((bytes.last() as u64) << ((8 * (bytes.len() - 1)) as u64))
    }
}

/// Encodes the `n` low-order bytes of `value` in little-endian order.
pub fn le_bytes_exec(value: u64, n: usize) -> (r: Vec<u8>)
    requires
        n <= 8,
    ensures
        r@ == le_bytes_of(value, n as nat),
{
    let mut out: Vec<u8> = Vec::new();
    let mut i: usize = 0;
    while i < n
        invariant
            i <= n,
            n <= 8,
            out@.len() == i,
            forall|k: int| 0 <= k < i ==> out@[k] == le_bytes_of(value, n as nat)[k],
        decreases n - i,
    {
        let sh: u64 = 8 * (i as u64);
        let b: u64 = (value >> sh) & 0xff;
        assert(b < 256) by (bit_vector)
            requires
                b == (value >> sh) & 0xff,
        ;
        out.push(b as u8);
        i += 1;
    }
    assert(out@ =~= le_bytes_of(value, n as nat));
    out
}

/// Decodes a popped byte sequence as an unsigned little-endian integer.
/// Exactly the 1-, 2-, 4- and 8-byte encodings are interpreted; any
/// other length fails with `UnimplementedRegisterSize`.
pub fn le_value_of_bytes(bytes: &Vec<u8>) -> (r: Result<u64, Error>)
    ensures
        (bytes@.len() == 1 || bytes@.len() == 2 || bytes@.len() == 4 || bytes@.len() == 8)
            ==> r == Ok::<u64, Error>(le_value_of(bytes@)),
        !(bytes@.len() == 1 || bytes@.len() == 2 || bytes@.len() == 4 || bytes@.len() == 8)
            ==> r == Err::<u64, Error>(Error::UnimplementedRegisterSize(bytes@.len() as usize)),
{
    let n = bytes.len();
    if !(n == 1 || n == 2 || n == 4 || n == 8) {
        return Err(Error::UnimplementedRegisterSize(n));
    }
    let mut acc: u64 = 0;
    let mut i: usize = 0;
    while i < n
        invariant
            i <= n,
            n <= 8,
            n == bytes@.len(),
            acc == le_value_of(bytes@.take(i as int)),
        decreases n - i,
    {
        let sh: u64 = 8 * (i as u64);
        acc = acc | ((bytes[i] as u64) << sh);
        proof {
            assert(bytes@.take((i + 1) as int).drop_last() =~= bytes@.take(i as int));
        }
        i += 1;
    }
    proof {
        assert(bytes@.take(n as int) =~= bytes@);
    }
    Ok(acc)
}

/// The two states agree: same stack contents, same registers.
pub open spec fn same_state(pre: Cpu, post: Cpu) -> bool {
    post.stack@ == pre.stack@ && post.registers == pre.registers
}

/// What reading a register by identifier returns: the backing slot's
/// value, or `UnimplementedRegister` outside the supported enumeration.
pub open spec fn spec_get(cpu: Cpu, id: u32) -> Result<u64, Error> {
    match spec_resolve(id) {
        Some(rr) => Ok(spec_read(cpu.registers, rr)),
        None => Err(Error::UnimplementedRegister(id)),
    }
}

/// How writing a register by identifier changes the state: the backing
/// slot is overwritten (see `spec_write`) and nothing else moves, or the
/// state is unchanged and `UnimplementedRegister` comes back.
pub open spec fn spec_set_rel(pre: Cpu, id: u32, value: u64, post: Cpu, r: Result<(), Error>) -> bool {
    match spec_resolve(id) {
        Some(rr) => {
            &&& post.stack@ == pre.stack@
            &&& post.registers == spec_write(pre.registers, rr, value, STACK_SIZE)
            &&& r == Ok::<(), Error>(())
        },
        None => same_state(pre, post) && r == Err::<(), Error>(Error::UnimplementedRegister(id)),
    }
}

/// How pushing a byte sequence changes the state (see
/// `push_stack_value`).
pub open spec fn spec_push_rel(pre: Cpu, bytes: Seq<u8>, post: Cpu, r: Result<(), Error>) -> bool {
    if bytes.len() > STACK_SIZE {
        same_state(pre, post) && r == Err::<(), Error>(Error::StackOverflowWrite)
    } else {
        &&& r == Ok::<(), Error>(())
        &&& post.registers.rsp.spec_value() == spec_push_off(
            pre.registers.rsp.spec_value(),
            bytes.len(),
        )
        &&& post.registers.rsp.capacity() == STACK_SIZE
        &&& post.registers == (Registers { rsp: post.registers.rsp, ..pre.registers })
        &&& post.stack@ == spec_push_stack(
            pre.stack@,
            spec_push_off(pre.registers.rsp.spec_value(), bytes.len()),
            bytes,
        )
    }
}

/// How pushing a register changes the state: the register's 64-bit value
/// is read, truncated to the register's declared byte width, and pushed.
pub open spec fn spec_push_reg_rel(pre: Cpu, id: u32, post: Cpu, r: Result<(), Error>) -> bool {
    match spec_resolve(id) {
        Some(rr) => spec_push_rel(
            pre,
            le_bytes_of(spec_read(pre.registers, rr), rr.width as nat),
            post,
            r,
        ),
        None => same_state(pre, post) && r == Err::<(), Error>(Error::UnimplementedRegister(id)),
    }
}

/// How popping into a register changes the state: the register's
/// declared byte width is popped, decoded as an unsigned little-endian
/// integer, and written through the register's backing slot.
pub open spec fn spec_pop_reg_rel(pre: Cpu, id: u32, post: Cpu, r: Result<(), Error>) -> bool {
    match spec_resolve(id) {
        Some(rr) => {
            let bytes = spec_read_stack(
                pre.stack@,
                pre.registers.rsp.spec_value(),
                rr.width as nat,
            );
            let popped = Registers {
                rsp: StackPointer::spec_new(
                    spec_pop_off(pre.registers.rsp.spec_value(), rr.width as nat) as u64,
                    STACK_SIZE,
                ),
                ..pre.registers
            };
            &&& post.stack@ == pre.stack@
            &&& post.registers == spec_write(popped, rr, le_value_of(bytes), STACK_SIZE)
            &&& r == Ok::<(), Error>(())
        },
        None => same_state(pre, post) && r == Err::<(), Error>(Error::UnimplementedRegister(id)),
    }
}

/// The instruction semantics: how one supported instruction takes the
/// state `pre` to the state `post` with result `r`.
pub open spec fn spec_step(pre: Cpu, instruction: Instr, post: Cpu, r: Result<(), Error>) -> bool {
    match instruction.code {
        InstrCode::MovR64Imm64 => spec_set_rel(
            pre,
            instruction.op0_register,
            instruction.immediate64,
            post,
            r,
        ),
        InstrCode::MovRm64R64 => if !instruction.op0_is_register {
            same_state(pre, post) && r == Err::<(), Error>(
                Error::UnimplementedInstruction(instruction),
            )
        } else {
            match spec_resolve(instruction.op1_register) {
                Some(rr1) => spec_set_rel(
                    pre,
                    instruction.op0_register,
                    spec_read(pre.registers, rr1),
                    post,
                    r,
                ),
                None => same_state(pre, post) && r == Err::<(), Error>(
                    Error::UnimplementedRegister(instruction.op1_register),
                ),
            }
        },
        InstrCode::PushR64 => spec_push_reg_rel(pre, instruction.op0_register, post, r),
        InstrCode::PushqImm8 => spec_push_rel(pre, seq![instruction.immediate8], post, r),
        InstrCode::PopR64 => spec_pop_reg_rel(pre, instruction.op0_register, post, r),
        InstrCode::JmpRel8 => {
            &&& post.stack@ == pre.stack@
            &&& post.registers == (Registers { rip: instruction.near_branch64, ..pre.registers })
            &&& r == Ok::<(), Error>(())
        },
        InstrCode::XorRm32R32 => if !instruction.op0_is_register {
            same_state(pre, post) && r == Err::<(), Error>(
                Error::UnimplementedInstruction(instruction),
            )
        } else {
            match spec_resolve(instruction.op0_register) {
                None => same_state(pre, post) && r == Err::<(), Error>(
                    Error::UnimplementedRegister(instruction.op0_register),
                ),
                Some(rr0) => match spec_resolve(instruction.op1_register) {
                    None => same_state(pre, post) && r == Err::<(), Error>(
                        Error::UnimplementedRegister(instruction.op1_register),
                    ),
                    Some(rr1) => spec_set_rel(
                        pre,
                        instruction.op0_register,
                        spec_read(pre.registers, rr0) ^ spec_read(pre.registers, rr1),
                        post,
                        r,
                    ),
                },
            }
        },
        _ => same_state(pre, post) && r == Err::<(), Error>(
            Error::UnimplementedInstruction(instruction),
        ),
    }
}

impl Cpu {
    /// Reads the 64-bit value of the register named by `id`; fails with
    /// `UnimplementedRegister` for any name outside the enumeration.
    pub fn get_register_u64(&self, id: u32) -> (r: Result<u64, Error>)
        ensures
            r == spec_get(*self, id),
    {
        match resolve(id) {
            Some(rr) => Ok(self.registers.read_slot(rr)),
            None => Err(Error::UnimplementedRegister(id)),
        }
    }

    /// Writes `value` through the register named by `id`, overwriting
    /// the whole backing slot; fails with `UnimplementedRegister` for
    /// any name outside the enumeration.
    pub fn set_register(&mut self, id: u32, value: u64) -> (r: Result<(), Error>)
        requires
            old(self).wf(),
        ensures
            final(self).wf(),
            spec_set_rel(*old(self), id, value, *final(self), r),
    {
        match resolve(id) {
            Some(rr) => {
                self.registers.write_slot(rr, value, STACK_SIZE);
                proof {
                    if rr.class == crate::cpu::registers::RegClass::Gpr && rr.index == 4 {
                        StackPointer::lemma_spec_new(value, STACK_SIZE);
                    }
                }
                Ok(())
            },
            None => Err(Error::UnimplementedRegister(id)),
        }
    }

    /// Pushes the register's value, truncated to the register's declared
    /// byte width, onto the stack.
    pub fn push_stack_register(&mut self, register_id: u32) -> (r: Result<(), Error>)
        requires
            old(self).wf(),
        ensures
            final(self).wf(),
            spec_push_reg_rel(*old(self), register_id, *final(self), r),
    {
        proof {
            crate::cpu::registers::lemma_resolve_wf(register_id);
        }
        match resolve(register_id) {
            Some(rr) => {
                let value = self.registers.read_slot(rr);
                let bytes = le_bytes_exec(value, rr.width as usize);
                self.push_stack_value(bytes.as_slice())
            },
            None => Err(Error::UnimplementedRegister(register_id)),
        }
    }

    /// Pops the register's declared byte width off the stack, decodes it
    /// as an unsigned little-endian integer, and writes it into the
    /// register.
    pub fn pop_stack_register(&mut self, register_id: u32) -> (r: Result<(), Error>)
        requires
            old(self).wf(),
        ensures
            final(self).wf(),
            spec_pop_reg_rel(*old(self), register_id, *final(self), r),
    {
        proof {
            crate::cpu::registers::lemma_resolve_wf(register_id);
        }
        match resolve(register_id) {
            Some(rr) => {
                let bytes = match self.pop_stack_value(rr.width as usize) {
                    Ok(b) => b,
                    Err(e) => {
                        return Err(e);
                    },
                };
                let value = match le_value_of_bytes(&bytes) {
                    Ok(v) => v,
                    Err(e) => {
                        return Err(e);
                    },
                };
                proof {
                    let off = spec_pop_off(
                        old(self).registers.rsp.spec_value(),
                        rr.width as nat,
                    );
                    vstd::arithmetic::div_mod::lemma_mod_bound(
                        old(self).registers.rsp.spec_value() + rr.width + pad8(rr.width as nat),
                        STACK_SIZE as int,
                    );
                    StackPointer::lemma_spec_new(off as u64, STACK_SIZE);
                    vstd::arithmetic::div_mod::lemma_small_mod(off as nat, STACK_SIZE as nat);
                    crate::mem::lemma_pointer_ext_equal(
                        self.registers.rsp,
                        StackPointer::spec_new(off as u64, STACK_SIZE),
                    );
                }
                self.registers.write_slot(rr, value, STACK_SIZE);
                proof {
                    if rr.class == crate::cpu::registers::RegClass::Gpr && rr.index == 4 {
                        StackPointer::lemma_spec_new(value, STACK_SIZE);
                    }
                }
                Ok(())
            },
            None => Err(Error::UnimplementedRegister(register_id)),
        }
    }

    /// Executes one decoded instruction against the CPU state, following
    /// the `spec_step` semantics: the supported move, push, pop, jump
    /// and xor forms do their work, and every other form fails with
    /// `UnimplementedInstruction`.
    pub fn execute_instruction(&mut self, instruction: Instr) -> (r: Result<(), Error>)
        requires
            old(self).wf(),
        ensures
            final(self).wf(),
            spec_step(*old(self), instruction, *final(self), r),
    {
        match instruction.code {
            InstrCode::MovR64Imm64 => self.set_register(
                instruction.op0_register,
                instruction.immediate64,
            ),
            InstrCode::MovRm64R64 => {
                if instruction.op0_is_register {
                    match self.get_register_u64(instruction.op1_register) {
                        Ok(v) => self.set_register(instruction.op0_register, v),
                        Err(e) => Err(e),
                    }
                } else {
                    Err(Error::UnimplementedInstruction(instruction))
                }
            },
            InstrCode::PushR64 => self.push_stack_register(instruction.op0_register),
            InstrCode::PushqImm8 => {
                let mut bytes: Vec<u8> = Vec::new();
                bytes.push(instruction.immediate8);
                proof {
                    assert(bytes@ =~= seq![instruction.immediate8]);
                }
                self.push_stack_value(bytes.as_slice())
            },
            InstrCode::PopR64 => self.pop_stack_register(instruction.op0_register),
            InstrCode::JmpRel8 => {
                self.registers.rip = instruction.near_branch64;
                Ok(())
            },
            InstrCode::XorRm32R32 => {
                if instruction.op0_is_register {
                    match self.get_register_u64(instruction.op0_register) {
                        Ok(a) => match self.get_register_u64(instruction.op1_register) {
                            Ok(b) => self.set_register(instruction.op0_register, a ^ b),
                            Err(e) => Err(e),
                        },
                        Err(e) => Err(e),
                    }
                } else {
                    Err(Error::UnimplementedInstruction(instruction))
                }
            },
            InstrCode::Invalid | InstrCode::Syscall | InstrCode::Other => Err(
                Error::UnimplementedInstruction(instruction),
            ),
        }
    }
}

/// Push/pop inverse law: after a successful push of `bytes`, reading the
/// same number of bytes back from the new stack pointer yields exactly
/// `bytes`, and the pop leaves the stack pointer where it was before the
/// push.
pub proof fn lemma_push_pop_inverse(pre: Cpu, bytes: Seq<u8>, mid: Cpu)
    requires
        pre.wf(),
        bytes.len() <= STACK_SIZE,
        spec_push_rel(pre, bytes, mid, Ok(())),
    ensures
        spec_read_stack(mid.stack@, mid.registers.rsp.spec_value(), bytes.len()) == bytes,
        spec_pop_off(mid.registers.rsp.spec_value(), bytes.len())
            == pre.registers.rsp.spec_value(),
{
    let c = STACK_SIZE as int;
    let pre_off = pre.registers.rsp.spec_value() as int;
    let t = bytes.len() + pad8(bytes.len());
    let off = spec_push_off(pre.registers.rsp.spec_value(), bytes.len());
    vstd::arithmetic::div_mod::lemma_mod_bound(pre_off - t, c);
    assert forall|i: int| 0 <= i < bytes.len() implies spec_read_stack(
        mid.stack@,
        mid.registers.rsp.spec_value(),
        bytes.len(),
    )[i] == bytes[i] by {
        let j = (off + i) % c;
        vstd::arithmetic::div_mod::lemma_mod_bound(off + i, c);
        lemma_mod_sub_cancel(off + i, off, c);
        vstd::arithmetic::div_mod::lemma_small_mod(i as nat, STACK_SIZE as nat);
        assert((j - off) % c == i);
    }
    assert(spec_read_stack(mid.stack@, mid.registers.rsp.spec_value(), bytes.len()) =~= bytes);
    lemma_mod_add_cancel(pre_off - t, t as int, c);
    vstd::arithmetic::div_mod::lemma_small_mod(pre_off as nat, STACK_SIZE as nat);
}

/// Stack-pointer invariant: the offsets that pushes and pops produce lie
/// inside `[0, capacity)`, so together with the corresponding law for
/// plain modular addition and subtraction (`lemma_pointer_stays_in_range`
/// in `mem`) any sequence of push, pop, add and subtract operations keeps
/// the stack pointer well formed.
pub proof fn lemma_stack_ops_keep_pointer_in_range(pre: Cpu, len: nat)
    requires
        pre.wf(),
    ensures
        0 <= spec_push_off(pre.registers.rsp.spec_value(), len) < STACK_SIZE,
        0 <= spec_pop_off(pre.registers.rsp.spec_value(), len) < STACK_SIZE,
{
    let c = STACK_SIZE as int;
    vstd::arithmetic::div_mod::lemma_mod_bound(
        pre.registers.rsp.spec_value() - (len + pad8(len)),
        c,
    );
    vstd::arithmetic::div_mod::lemma_mod_bound(
        pre.registers.rsp.spec_value() + len + pad8(len),
        c,
    );
}

/// The modulus a backing slot stores values by: writes keep the value
/// exactly when it is below this bound.
pub open spec fn slot_modulus(rr: ResolvedReg) -> int {
    match rr.class {
        RegClass::Gpr => if rr.index == 4 {
            STACK_SIZE as int
        } else {
            0x1_0000_0000_0000_0000
        },
        RegClass::Ip => 0x1_0000_0000_0000_0000,
        RegClass::Seg => 0x1_0000,
        RegClass::Ctrl => 0x1_0000_0000_0000_0000,
        RegClass::Dbg => 0x1_0000_0000_0000_0000,
        RegClass::Test => 0x1_0000_0000,
    }
}

/// Register round-trip law: writing `value` through any supported
/// register name and reading it back through the same name yields
/// `value`, whenever `value` fits the backing slot (any 64-bit value for
/// the full-width slots; below 2^16 for segments, 2^32 for test slots,
/// and the stack capacity for the stack pointer).
pub proof fn lemma_register_round_trip(regs: Registers, id: u32, value: u64)
    requires
        spec_resolve(id) is Some,
        value < slot_modulus(spec_resolve(id).unwrap()),
    ensures
        spec_read(spec_write(regs, spec_resolve(id).unwrap(), value, STACK_SIZE),
            spec_resolve(id).unwrap()) == value,
{
    let rr = spec_resolve(id).unwrap();
    crate::cpu::registers::lemma_resolve_wf(id);
    match rr.class {
        RegClass::Gpr => {
            if rr.index == 4 {
                StackPointer::lemma_spec_new(value, STACK_SIZE);
                vstd::arithmetic::div_mod::lemma_small_mod(value as nat, STACK_SIZE as nat);
            }
        },
        RegClass::Seg => {
            assert(value as u16 as u64 == value) by (bit_vector)
                requires
                    value < 0x1_0000,
            ;
        },
        RegClass::Test => {
            assert(value as u32 as u64 == value) by (bit_vector)
                requires
                    value < 0x1_0000_0000,
            ;
        },
        _ => {},
    }
}

/// Push/pop round trip at the instruction level: over a zeroed stack
/// buffer, executing a push of an 8-bit immediate and then a pop into a
/// full-width general-purpose register (other than the stack pointer
/// itself) leaves exactly the immediate in that register and returns the
/// stack pointer to where it stood before the push.
pub proof fn lemma_push_imm_pop_register(
    pre: Cpu,
    push_instr: Instr,
    pop_instr: Instr,
    mid: Cpu,
    post: Cpu,
)
    requires
        pre.wf(),
        forall|j: int| 0 <= j < STACK_SIZE ==> pre.stack@[j] == 0u8,
        push_instr.code == InstrCode::PushqImm8,
        pop_instr.code == InstrCode::PopR64,
        spec_resolve(pop_instr.op0_register) is Some,
        spec_resolve(pop_instr.op0_register).unwrap().class == RegClass::Gpr,
        spec_resolve(pop_instr.op0_register).unwrap().width == 8,
        spec_resolve(pop_instr.op0_register).unwrap().index != 4,
        spec_step(pre, push_instr, mid, Ok(())),
        spec_step(mid, pop_instr, post, Ok(())),
    ensures
        spec_read(post.registers, spec_resolve(pop_instr.op0_register).unwrap())
            == push_instr.immediate8 as u64,
        post.registers.rsp.spec_value() == pre.registers.rsp.spec_value(),
{
    let c = STACK_SIZE as int;
    let imm = push_instr.immediate8;
    let off0 = pre.registers.rsp.spec_value() as int;
    let off = spec_push_off(pre.registers.rsp.spec_value(), 1);
    vstd::arithmetic::div_mod::lemma_mod_bound(off0 - 8, c);

    // the eight popped bytes: the immediate, then seven zeros left in
    // the padding above it
    let bytes = spec_read_stack(mid.stack@, mid.registers.rsp.spec_value(), 8);
    assert forall|k: int| 0 <= k < 8 implies bytes[k] == (if k == 0 {
        imm
    } else {
        0u8
    }) by {
        let j = (off + k) % c;
        vstd::arithmetic::div_mod::lemma_mod_bound(off + k, c);
        lemma_mod_sub_cancel(off + k, off, c);
        vstd::arithmetic::div_mod::lemma_small_mod(k as nat, STACK_SIZE as nat);
        assert((j - off) % c == k);
        assert(mid.stack@[j] == spec_push_stack(pre.stack@, off, seq![imm])[j]);
    }

    // those bytes decode, little-endian, to the immediate itself
    let v: u64 = imm as u64;
    let b1 = bytes.take(1);
    assert(le_value_of(b1) == v) by {
        assert(b1.drop_last() =~= Seq::<u8>::empty());
        assert(b1.last() == imm);
        assert(le_value_of(Seq::<u8>::empty()) == 0u64);
        assert(((8 * (b1.len() - 1)) as u64) == 0u64);
        assert(v << 0u64 == v) by (bit_vector);
        assert(0u64 | v == v) by (bit_vector);
    }
    assert forall|n: int|
        1 <= n < 8 && le_value_of(#[trigger] bytes.take(n)) == v implies le_value_of(
        bytes.take(n + 1),
    ) == v by {
        assert(bytes.take(n + 1).drop_last() =~= bytes.take(n));
        assert(bytes.take(n + 1).last() == 0u8);
        let sh: u64 = ((8 * (bytes.take(n + 1).len() - 1)) as u64);
        assert(sh < 64);
        assert((0u8 as u64) << sh == 0u64) by (bit_vector)
            requires
                sh < 64,
        ;
        assert(v | 0u64 == v) by (bit_vector);
    }
    assert(le_value_of(bytes.take(2)) == v);
    assert(le_value_of(bytes.take(3)) == v);
    assert(le_value_of(bytes.take(4)) == v);
    assert(le_value_of(bytes.take(5)) == v);
    assert(le_value_of(bytes.take(6)) == v);
    assert(le_value_of(bytes.take(7)) == v);
    assert(le_value_of(bytes.take(8)) == v);
    assert(bytes.take(8) =~= bytes);

    // the register write stores the decoded value unchanged
    lemma_register_round_trip(
        Registers {
            rsp: StackPointer::spec_new(
                spec_pop_off(mid.registers.rsp.spec_value(), 8) as u64,
                STACK_SIZE,
            ),
            ..mid.registers
        },
        pop_instr.op0_register,
        imm as u64,
    );

    // popping eight bytes undoes pushing one byte with seven of padding
    lemma_mod_add_cancel(off0 - 8, 8, c);
    vstd::arithmetic::div_mod::lemma_small_mod(off0 as nat, STACK_SIZE as nat);
    StackPointer::lemma_spec_new(spec_pop_off(mid.registers.rsp.spec_value(), 8) as u64, STACK_SIZE);
}

} // verus!

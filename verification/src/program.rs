pub mod decode;
pub mod error;
pub mod exports;
pub mod loader;

use vstd::prelude::*;
use vstd::slice::slice_subrange;
use vstd::string::StringExecFns;

use crate::STACK_SIZE;
use crate::cpu::Cpu;
use crate::cpu::instr::{Instr, InstrCode};
use crate::cpu::lemma_mod_add_cancel;
use crate::mem::StackPointer;
use crate::program::error::Error;
use crate::program::exports::ExportMap;
use crate::program::loader::EntryPlan;

verus! {

/// The most instructions one run may execute.  A loop only terminates
/// via `exit` or an error, so the engine bounds the instruction count; a
/// run that exceeds the bound is treated as a program that did not exit.
pub const EXECUTION_STEP_LIMIT: u64 = 0x1_0000_0000;

/// How deep fat Mach-O containers may nest.  A malformed container can
/// name itself as its own x86 slice; the bound keeps slice selection
/// from chasing such a cycle forever.
pub const FAT_NESTING_LIMIT: u64 = 16;

/// The result of a clean run: the `exit` syscall's code and everything
/// the program wrote to the two captured descriptors.
#[derive(Debug, Clone, PartialEq, Eq)]
pub struct Execution {
    /// The code the program passed to the `exit` syscall.
    pub exit_code: u64,
    /// Everything written to descriptor 1.
    pub stdout: String,
    /// Everything written to descriptor 2.
    pub stderr: String,
}

/// What a byte sequence decodes to as UTF-8: the characters, or nothing
/// where the bytes are not valid UTF-8.
pub uninterp spec fn utf8_decode_of(bytes: Seq<u8>) -> Option<Seq<char>>;

/// Relies on String::from_utf8: decodes the bytes as UTF-8, or reports
/// that they are not valid UTF-8.  The result depends on the bytes
/// alone.
#[verifier::external_body]
fn utf8_decode(bytes: Vec<u8>) -> (r: Option<String>)
    ensures
        r is Some <==> utf8_decode_of(bytes@) is Some,
        r is Some ==> r.unwrap()@ == utf8_decode_of(bytes@).unwrap(),
{
    String::from_utf8(bytes).ok()
}

/// The bytes a `write` syscall sends: `count` bytes read upward from
/// stack offset `rsi` (normalized modulo the stack capacity), through an
/// independent cursor — the stack pointer does not move.
pub open spec fn spec_syscall_read_bytes(cpu: Cpu, count: nat) -> Seq<u8> {
    Seq::new(count, |i: int| cpu.stack@[(cpu.registers.rsi + i) % (STACK_SIZE as int)])
}

/// The syscall semantics: how the syscall named by `rax` takes the
/// captured output, the recorded exit code and the result from their old
/// to their new values.  The CPU itself is only read.
pub open spec fn spec_syscall(
    pre: Cpu,
    pre_exit: Option<u64>,
    pre_out: Seq<char>,
    pre_err: Seq<char>,
    post_exit: Option<u64>,
    post_out: Seq<char>,
    post_err: Seq<char>,
    r: Result<(), Error>,
) -> bool {
    let rax = pre.registers.rax;
    if rax == 0x1 {
        let count = pre.registers.rdx;
        if count > STACK_SIZE {
            &&& post_exit == pre_exit
            &&& post_out == pre_out
            &&& post_err == pre_err
            &&& r == Err::<(), Error>(Error::Cpu(crate::cpu::error::Error::StackOverflowRead))
        } else {
            match utf8_decode_of(spec_syscall_read_bytes(pre, count as nat)) {
                None => {
                    &&& post_exit == pre_exit
                    &&& post_out == pre_out
                    &&& post_err == pre_err
                    &&& r == Err::<(), Error>(Error::FromUtf8Error)
                },
                Some(text) => {
                    let fd = pre.registers.rdi;
                    if fd == 0x1 {
                        &&& post_exit == pre_exit
                        &&& post_out == pre_out + text
                        &&& post_err == pre_err
                        &&& r == Ok::<(), Error>(())
                    } else if fd == 0x2 {
                        &&& post_exit == pre_exit
                        &&& post_out == pre_out
                        &&& post_err == pre_err + text
                        &&& r == Ok::<(), Error>(())
                    } else {
                        &&& post_exit == pre_exit
                        &&& post_out == pre_out
                        &&& post_err == pre_err
                        &&& r == Err::<(), Error>(Error::UnimplementedFileDescriptor(fd))
                    }
                },
            }
        }
    } else if rax == 0x3c {
        &&& post_exit == Some(pre.registers.rdi)
        &&& post_out == pre_out
        &&& post_err == pre_err
        &&& r == Ok::<(), Error>(())
    } else {
        &&& post_exit == pre_exit
        &&& post_out == pre_out
        &&& post_err == pre_err
        &&& r == Err::<(), Error>(Error::UnimplementedSyscall(rax))
    }
}

/// Interprets one syscall against the CPU state.  `write` (0x1) reads
/// `rdx` bytes from stack offset `rsi`, decodes them as UTF-8 and
/// appends them to stdout (descriptor 1) or stderr (descriptor 2);
/// `exit` (0x3c) records `rdi` as the exit code; anything else fails.
/// The CPU is never changed.
pub fn handle_syscall(
    cpu: &mut Cpu,
    exit_code: &mut Option<u64>,
    stdout: &mut String,
    stderr: &mut String,
) -> (r: Result<(), Error>)
    requires
        old(cpu).wf(),
    ensures
        *final(cpu) == *old(cpu),
        final(cpu).wf(),
        spec_syscall(
            *old(cpu),
            *old(exit_code),
            old(stdout)@,
            old(stderr)@,
            *final(exit_code),
            final(stdout)@,
            final(stderr)@,
            r,
        ),
{
    let rax = cpu.registers.rax;
    if rax == 0x1 {
        // write(fd = rdi, buf = rsi, count = rdx)
        let count = cpu.registers.rdx;
        if count > STACK_SIZE {
            return Err(Error::Cpu(crate::cpu::error::Error::StackOverflowRead));
        }
        let ghost c: int = STACK_SIZE as int;
        let ghost rsi: int = cpu.registers.rsi as int;
        let mut buf_ptr = StackPointer::new(cpu.registers.rsi, STACK_SIZE);
        let mut buf: Vec<u8> = Vec::new();
        let mut i: u64 = 0;
        while i < count
            invariant
                cpu.wf(),
                *cpu == *old(cpu),
                i <= count,
                count <= STACK_SIZE,
                c == STACK_SIZE as int,
                rsi == cpu.registers.rsi as int,
                buf_ptr.capacity() == STACK_SIZE,
                buf_ptr.inv(),
                buf_ptr.spec_value() as int == (rsi + i) % c,
                buf@.len() == i,
                forall|k: int|
                    0 <= k < i ==> buf@[k] == cpu.stack@[(rsi + k) % c],
            decreases count - i,
        {
            let off = buf_ptr.value();
            buf.push(cpu.stack[off as usize]);
            proof {
                lemma_mod_add_cancel(rsi + i, 1, c);
            }
            buf_ptr = buf_ptr.wrapping_add(1);
            i += 1;
        }
        proof {
            assert(buf@ =~= spec_syscall_read_bytes(*old(cpu), count as nat));
        }
        match utf8_decode(buf) {
            None => Err(Error::FromUtf8Error),
            Some(text) => {
                let fd = cpu.registers.rdi;
                if fd == 0x1 {
                    stdout.append(text.as_str());
                    Ok(())
                } else if fd == 0x2 {
                    stderr.append(text.as_str());
                    Ok(())
                } else {
                    Err(Error::UnimplementedFileDescriptor(fd))
                }
            },
        }
    } else if rax == 0x3c {
        // exit(status = rdi)
        *exit_code = Some(cpu.registers.rdi);
        Ok(())
    } else {
        Err(Error::UnimplementedSyscall(rax))
    }
}


/// A fresh CPU, as `Cpu::new` builds it: zeroed stack, zeroed registers,
/// stack pointer at offset 0.
pub open spec fn is_fresh_cpu(cpu: Cpu) -> bool {
    &&& cpu.wf()
    &&& cpu.stack@ == Seq::new(STACK_SIZE as nat, |i: int| 0u8)
    &&& cpu.registers.rsp.spec_value() == 0
    &&& (crate::cpu::registers::Registers {
        rsp: StackPointer::spec_default(),
        ..cpu.registers
    }).is_reset()
}

/// One successful iteration of the execution loop, as observed from
/// outside the decoder: the instruction pointer the decoder reported
/// (`step.0`) is written to `rip`, and then the decoded instruction
/// (`step.1`) runs through the syscall layer or the CPU with an `Ok`
/// result.
pub open spec fn spec_loop_step(
    pre_cpu: Cpu,
    pre_exit: Option<u64>,
    pre_out: Seq<char>,
    pre_err: Seq<char>,
    step: (u64, Instr),
    post_cpu: Cpu,
    post_exit: Option<u64>,
    post_out: Seq<char>,
    post_err: Seq<char>,
) -> bool {
    let rip_cpu = Cpu {
        registers: crate::cpu::registers::Registers { rip: step.0, ..pre_cpu.registers },
        ..pre_cpu
    };
    if step.1.code == InstrCode::Syscall {
        &&& post_cpu == rip_cpu
        &&& spec_syscall(rip_cpu, pre_exit, pre_out, pre_err, post_exit, post_out, post_err,
            Ok(()))
    } else {
        &&& post_exit == pre_exit
        &&& post_out == pre_out
        &&& post_err == pre_err
        &&& crate::cpu::spec_step(rip_cpu, step.1, post_cpu, Ok(()))
    }
}

/// The execution loop's trace semantics: the state `(post_cpu,
/// post_exit, post_out, post_err)` is reached from `(pre_cpu, pre_exit,
/// pre_out, pre_err)` by running the instructions of `trace` in order,
/// each by `spec_loop_step`.
pub open spec fn spec_replay(
    pre_cpu: Cpu,
    pre_exit: Option<u64>,
    pre_out: Seq<char>,
    pre_err: Seq<char>,
    trace: Seq<(u64, Instr)>,
    post_cpu: Cpu,
    post_exit: Option<u64>,
    post_out: Seq<char>,
    post_err: Seq<char>,
) -> bool
    decreases trace.len(),
{
    if trace.len() == 0 {
        &&& post_cpu == pre_cpu
        &&& post_exit == pre_exit
        &&& post_out == pre_out
        &&& post_err == pre_err
    } else {
        exists|mid_cpu: Cpu, mid_exit: Option<u64>, mid_out: Seq<char>, mid_err: Seq<char>|
            #[trigger] spec_loop_step(
                pre_cpu,
                pre_exit,
                pre_out,
                pre_err,
                trace.first(),
                mid_cpu,
                mid_exit,
                mid_out,
                mid_err,
            ) && spec_replay(
                mid_cpu,
                mid_exit,
                mid_out,
                mid_err,
                trace.drop_first(),
                post_cpu,
                post_exit,
                post_out,
                post_err,
            )
    }
}

/// A replayed trace extends by one step at its end.
proof fn lemma_replay_snoc(
    cpu0: Cpu,
    exit0: Option<u64>,
    out0: Seq<char>,
    err0: Seq<char>,
    trace: Seq<(u64, Instr)>,
    cpu1: Cpu,
    exit1: Option<u64>,
    out1: Seq<char>,
    err1: Seq<char>,
    step: (u64, Instr),
    cpu2: Cpu,
    exit2: Option<u64>,
    out2: Seq<char>,
    err2: Seq<char>,
)
    requires
        spec_replay(cpu0, exit0, out0, err0, trace, cpu1, exit1, out1, err1),
        spec_loop_step(cpu1, exit1, out1, err1, step, cpu2, exit2, out2, err2),
    ensures
        spec_replay(cpu0, exit0, out0, err0, trace.push(step), cpu2, exit2, out2, err2),
    decreases trace.len(),
{
    if trace.len() == 0 {
        assert(trace.push(step).drop_first() =~= Seq::<(u64, Instr)>::empty());
        assert(trace.push(step).first() == step);
        assert(spec_loop_step(cpu0, exit0, out0, err0, trace.push(step).first(), cpu2, exit2,
            out2, err2));
        assert(spec_replay(cpu2, exit2, out2, err2, trace.push(step).drop_first(), cpu2, exit2,
            out2, err2));
    } else {
        let (mc, me, mo, mr) = choose|mc: Cpu, me: Option<u64>, mo: Seq<char>, mr: Seq<char>|
            #[trigger] spec_loop_step(cpu0, exit0, out0, err0, trace.first(), mc, me, mo, mr)
                && spec_replay(mc, me, mo, mr, trace.drop_first(), cpu1, exit1, out1, err1);
        lemma_replay_snoc(mc, me, mo, mr, trace.drop_first(), cpu1, exit1, out1, err1, step,
            cpu2, exit2, out2, err2);
        assert(trace.push(step).drop_first() =~= trace.drop_first().push(step));
        assert(trace.push(step).first() == trace.first());
        assert(spec_loop_step(cpu0, exit0, out0, err0, trace.push(step).first(), mc, me, mo, mr));
        assert(spec_replay(mc, me, mo, mr, trace.push(step).drop_first(), cpu2, exit2, out2,
            err2));
    }
}

/// Decides where the decoder must be repositioned after the program
/// retargets the instruction pointer: the file offset of the new target,
/// `rip - base`, or `UnimplementedInstructionPointerOutsideProgramSpace`
/// where the target lies below the image's base — there is no mapped
/// memory before the one loaded region.
pub fn retarget_position(rip: u64, base: u64) -> (r: Result<u64, Error>)
    ensures
        rip >= base ==> r == Ok::<u64, Error>((rip - base) as u64),
        rip < base ==> r == Err::<u64, Error>(
            Error::UnimplementedInstructionPointerOutsideProgramSpace,
        ),
{
    match rip.checked_sub(base) {
        Some(position) => Ok(position),
        None => Err(Error::UnimplementedInstructionPointerOutsideProgramSpace),
    }
}

/// An execution is explained by the step semantics: some trace of
/// decoded instructions, replayed from a fresh CPU by `spec_replay`,
/// ends with exactly this exit code and this captured output.
pub open spec fn spec_replay_explains(execution: Execution) -> bool {
    exists|
        start: Cpu,
        trace: Seq<(u64, Instr)>,
        end: Cpu,
        fexit: u64,
        fout: Seq<char>,
        ferr: Seq<char>,
    |
        {
            &&& is_fresh_cpu(start)
            &&& #[trigger] spec_replay(
                start,
                None,
                Seq::<char>::empty(),
                Seq::<char>::empty(),
                trace,
                end,
                Some(fexit),
                fout,
                ferr,
            )
            &&& fexit == execution.exit_code
            &&& fout == execution.stdout@
            &&& ferr == execution.stderr@
        }
}

/// End-to-end law for the minimal exiting program: a replayed trace that
/// loads `code` into `rdi`, loads the exit syscall number into `rax`,
/// and then executes `syscall` ends with exit code `code` and writes
/// nothing to either descriptor, whatever CPU state it starts from.
pub proof fn lemma_exit_trace_replay(
    start: Cpu,
    trace: Seq<(u64, Instr)>,
    end: Cpu,
    fexit: Option<u64>,
    fout: Seq<char>,
    ferr: Seq<char>,
    code: u64,
)
    requires
        trace.len() == 3,
        trace[0].1.code == InstrCode::MovR64Imm64,
        trace[0].1.op0_register == crate::cpu::registers::REG_ID_RDI,
        trace[0].1.immediate64 == code,
        trace[1].1.code == InstrCode::MovR64Imm64,
        trace[1].1.op0_register == crate::cpu::registers::REG_ID_RAX,
        trace[1].1.immediate64 == 0x3c,
        trace[2].1.code == InstrCode::Syscall,
        spec_replay(
            start,
            None,
            Seq::<char>::empty(),
            Seq::<char>::empty(),
            trace,
            end,
            fexit,
            fout,
            ferr,
        ),
    ensures
        fexit == Some(code),
        fout == Seq::<char>::empty(),
        ferr == Seq::<char>::empty(),
{
    let (c1, e1, o1, r1) = choose|mc: Cpu, me: Option<u64>, mo: Seq<char>, mr: Seq<char>|
        spec_loop_step(
            start,
            None,
            Seq::<char>::empty(),
            Seq::<char>::empty(),
            trace.first(),
            mc,
            me,
            mo,
            mr,
        ) && spec_replay(mc, me, mo, mr, trace.drop_first(), end, fexit, fout, ferr);
    let rest1 = trace.drop_first();
    assert(rest1.first() == trace[1]);
    let (c2, e2, o2, r2) = choose|mc: Cpu, me: Option<u64>, mo: Seq<char>, mr: Seq<char>|
        spec_loop_step(c1, e1, o1, r1, rest1.first(), mc, me, mo, mr) && spec_replay(
            mc,
            me,
            mo,
            mr,
            rest1.drop_first(),
            end,
            fexit,
            fout,
            ferr,
        );
    let rest2 = rest1.drop_first();
    assert(rest2.first() == trace[2]);
    let (c3, e3, o3, r3) = choose|mc: Cpu, me: Option<u64>, mo: Seq<char>, mr: Seq<char>|
        spec_loop_step(c2, e2, o2, r2, rest2.first(), mc, me, mo, mr) && spec_replay(
            mc,
            me,
            mo,
            mr,
            rest2.drop_first(),
            end,
            fexit,
            fout,
            ferr,
        );
    // the first move puts `code` into rdi and touches nothing else
    assert(c1.registers.rdi == code);
    // the second move puts the exit syscall number into rax, keeping rdi
    assert(c2.registers.rax == 0x3c && c2.registers.rdi == code);
    // the syscall takes the exit branch and records rdi as the exit code
    assert(e3 == Some(code) && o3 == o2 && r3 == r2);
    // the trace is exhausted: the third step's state is the final one
    assert(rest2.drop_first().len() == 0);
}

/// Drives the fetch-decode-execute loop from wherever the decoder stands
/// until the program exits or fails.  The image's base instruction
/// pointer is recorded once at the start as the decoder's instruction
/// pointer less its data position.  Per iteration: an undecodable
/// instruction is fatal (`ProgramDidNotExit`); a syscall goes to the
/// syscall layer and anything else to the CPU; after a jump retargets
/// `rip`, the decoder is repositioned at `rip` less the base, and a
/// target below the base (or past the data) fails with
/// `UnimplementedInstructionPointerOutsideProgramSpace`.
///
/// What comes back is decided by the decoded instruction stream, which
/// the decoder alone knows; each step of the loop is verified against
/// `spec_step` and `spec_syscall`.
pub fn execute_from_x86_decoder(decoder: &mut iced_x86::Decoder<'_>) -> (r: Result<
    Execution,
    Error,
>)
    ensures
        r is Ok ==> spec_replay_explains(r->Ok_0),
{
    let ip0 = decode::decoder_ip(decoder);
    let pos0 = decode::decoder_position(decoder);
    let relative_instruction_pointer: u64 = ip0.wrapping_sub(pos0 as u64);

    let mut exit_code: Option<u64> = None;
    let mut stdout = String::new();
    let mut stderr = String::new();
    let mut cpu = Cpu::new();

    let ghost start_cpu: Cpu = cpu;
    let ghost mut trace: Seq<(u64, Instr)> = Seq::empty();

    let mut fuel: u64 = EXECUTION_STEP_LIMIT;
    loop
        invariant
            cpu.wf(),
            is_fresh_cpu(start_cpu),
            spec_replay(
                start_cpu,
                None,
                Seq::<char>::empty(),
                Seq::<char>::empty(),
                trace,
                cpu,
                exit_code,
                stdout@,
                stderr@,
            ),
        decreases fuel,
    {
        if fuel == 0 {
            return Err(Error::ProgramDidNotExit);
        }
        fuel = fuel - 1;

        let instruction = decode::decoder_decode(decoder);
        let instr = decode::read_instruction(&instruction);
        if instr.code == InstrCode::Invalid {
            return Err(Error::ProgramDidNotExit);
        }

        let ghost pre_cpu: Cpu = cpu;
        let ghost pre_exit: Option<u64> = exit_code;
        let ghost pre_out: Seq<char> = stdout@;
        let ghost pre_err: Seq<char> = stderr@;
        let ghost step_instr: Instr = instr;

        let ip_now = decode::decoder_ip(decoder);
        cpu.registers.rip = ip_now;

        if instr.code == InstrCode::Syscall {
            match handle_syscall(&mut cpu, &mut exit_code, &mut stdout, &mut stderr) {
                Ok(()) => {},
                Err(e) => {
                    return Err(e);
                },
            }
        } else {
            match cpu.execute_instruction(instr) {
                Ok(()) => {},
                Err(e) => {
                    return Err(Error::Cpu(e));
                },
            }
        }
        proof {
            let step = (ip_now, step_instr);
            assert(spec_loop_step(pre_cpu, pre_exit, pre_out, pre_err, step, cpu, exit_code,
                stdout@, stderr@));
            lemma_replay_snoc(start_cpu, None, Seq::<char>::empty(), Seq::<char>::empty(),
                trace, pre_cpu, pre_exit, pre_out, pre_err, step, cpu, exit_code, stdout@,
                stderr@);
            trace = trace.push(step);
        }

        if exit_code.is_some() {
            break;
        }

        if cpu.registers.rip != decode::decoder_ip(decoder) {
            // the program retargeted the instruction pointer: reposition
            // the decoder at the matching file offset
            let rip = cpu.registers.rip;
            match retarget_position(rip, relative_instruction_pointer) {
                Ok(rip_position) => {
                    decode::decoder_set_ip(decoder, rip);
                    match decode::decoder_set_position(
                        decoder,
                        #[verifier::truncate] (rip_position as usize),
                    ) {
                        Ok(()) => {},
                        Err(_) => {
                            return Err(Error::UnimplementedInstructionPointerOutsideProgramSpace);
                        },
                    }
                },
                Err(e) => {
                    return Err(e);
                },
            }
        }
    }

    match exit_code {
        Some(code) => {
            let execution = Execution { exit_code: code, stdout, stderr };
            proof {
                assert(is_fresh_cpu(start_cpu) && spec_replay(
                    start_cpu,
                    None,
                    Seq::<char>::empty(),
                    Seq::<char>::empty(),
                    trace,
                    cpu,
                    Some(execution.exit_code),
                    execution.stdout@,
                    execution.stderr@,
                ));
            }
            Ok(execution)
        },
        None => Err(Error::ProgramDidNotExit),
    }
}

/// Places a decoder at an image's resolved entry point and runs the
/// execution loop over `data`.
fn run_entry(data: &[u8], plan: EntryPlan) -> (r: Result<Execution, Error>)
    requires
        plan.bitness == 32 || plan.bitness == 64,
    ensures
        r is Ok ==> spec_replay_explains(r->Ok_0),
{
    let mut decoder = decode::decoder_with_ip(plan.bitness, data, plan.decoder_ip);
    match decode::decoder_set_position(&mut decoder, #[verifier::truncate] (plan.entry_offset
        as usize)) {
        Ok(()) => {},
        Err(msg) => {
            return Err(Error::Iced(msg));
        },
    }
    decode::decoder_set_ip(&mut decoder, plan.entry_ip);
    execute_from_x86_decoder(&mut decoder)
}

/// Loads an executable image and runs it: detects the container format,
/// resolves the entry point (peeling fat Mach-O containers down to their
/// x86 slice), and drives the execution loop until the program exits or
/// fails.  Inputs that are no recognized, loadable container fail with
/// the loader errors; a recognized format the emulator does not load
/// fails with `UnimplementedBinaryFileFormat`.
pub fn execute_from_binary_slice(binary: &[u8]) -> (r: Result<Execution, Error>)
    ensures
        r is Ok ==> spec_replay_explains(r->Ok_0),
        loader::spec_entry_outcome(binary@, FAT_NESTING_LIMIT as nat) is Err ==> r == Err::<
            Execution,
            Error,
        >(loader::spec_entry_outcome(binary@, FAT_NESTING_LIMIT as nat)->Err_0),
{
    let mut lo: usize = 0;
    let mut hi: usize = binary.len();

    let ghost overall = loader::spec_entry_outcome(binary@, FAT_NESTING_LIMIT as nat);
    proof {
        assert(binary@.subrange(0, binary@.len() as int) =~= binary@);
    }

    let mut nesting: u64 = FAT_NESTING_LIMIT;
    loop
        invariant
            lo <= hi <= binary@.len(),
            overall == loader::spec_entry_outcome(binary@, FAT_NESTING_LIMIT as nat),
            loader::spec_entry_outcome(binary@.subrange(lo as int, hi as int), nesting as nat)
                == overall,
        decreases nesting,
    {
        if nesting == 0 {
            return Err(Error::MachFatNoX86);
        }
        let ghost n0: nat = nesting as nat;
        nesting = nesting - 1;

        let sub = slice_subrange(binary, lo, hi);
        match loader::parse_elf(sub) {
            Some(image) => {
                let plan = match loader::elf_entry_plan(&image) {
                    Ok(p) => p,
                    Err(e) => {
                        return Err(e);
                    },
                };
                return run_entry(sub, plan);
            },
            None => {},
        }
        match loader::parse_pe(sub) {
            Some(image) => {
                let plan = match loader::pe_entry_plan(&image) {
                    Ok(p) => p,
                    Err(e) => {
                        return Err(e);
                    },
                };
                return run_entry(sub, plan);
            },
            None => {},
        }
        match loader::parse_mach_binary(sub) {
            Some(image) => {
                let plan = match loader::mach_entry_plan(&image) {
                    Ok(p) => p,
                    Err(e) => {
                        return Err(e);
                    },
                };
                return run_entry(sub, plan);
            },
            None => {},
        }
        match loader::parse_fat_arches(sub) {
            Some(arches) => {
                match loader::fat_x86_slice(&arches, hi - lo) {
                    Ok((start, end)) => {
                        // recurse into the selected slice
                        let new_lo = lo + start;
                        let new_hi = lo + end;
                        proof {
                            assert(binary@.subrange(new_lo as int, new_hi as int)
                                =~= sub@.subrange(start as int, end as int));
                        }
                        lo = new_lo;
                        hi = new_hi;
                    },
                    Err(e) => {
                        return Err(e);
                    },
                }
            },
            None => {
                match loader::parse_error_message(sub) {
                    Some(msg) => {
                        return Err(Error::Goblin(msg));
                    },
                    None => {
                        return Err(Error::UnimplementedBinaryFileFormat);
                    },
                }
            },
        }
    }
}

/// Resolves an image's exported symbols to a name-to-address map,
/// without executing anything: the same format detection and fat-slice
/// selection as `execute_from_binary_slice`, then the format's export
/// table filtered by the verified rules (`spec_elf_exports`,
/// `spec_pe_exports`, `spec_mach_exports`).
pub fn get_exports_from_binary_slice(binary: &[u8]) -> (r: Result<ExportMap, Error>)
    ensures
        ({
            let outcome = loader::spec_exports_outcome(binary@, FAT_NESTING_LIMIT as nat);
            match outcome {
                Ok(exports) => r is Ok && r->Ok_0@ == exports,
                Err(e) => r == Err::<ExportMap, Error>(e),
            }
        }),
{
    let mut lo: usize = 0;
    let mut hi: usize = binary.len();

    let ghost overall = loader::spec_exports_outcome(binary@, FAT_NESTING_LIMIT as nat);
    proof {
        assert(binary@.subrange(0, binary@.len() as int) =~= binary@);
    }

    let mut nesting: u64 = FAT_NESTING_LIMIT;
    loop
        invariant
            lo <= hi <= binary@.len(),
            overall == loader::spec_exports_outcome(binary@, FAT_NESTING_LIMIT as nat),
            loader::spec_exports_outcome(binary@.subrange(lo as int, hi as int), nesting as nat)
                == overall,
        decreases nesting,
    {
        if nesting == 0 {
            return Err(Error::MachFatNoX86);
        }
        nesting = nesting - 1;

        let sub = slice_subrange(binary, lo, hi);
        match loader::parse_elf_symbols(sub) {
            Some(symbols) => {
                return Ok(loader::elf_exports(&symbols));
            },
            None => {},
        }
        match loader::parse_pe_exports(sub) {
            Some(exports) => {
                return Ok(loader::pe_exports(&exports));
            },
            None => {},
        }
        match loader::parse_mach_exports(sub) {
            loader::MachExports::Found(exports) => {
                return Ok(loader::mach_exports(&exports));
            },
            loader::MachExports::Failed(msg) => {
                return Err(Error::Goblin(msg));
            },
            loader::MachExports::NotMach => {},
        }
        match loader::parse_fat_arches(sub) {
            Some(arches) => {
                match loader::fat_x86_slice(&arches, hi - lo) {
                    Ok((start, end)) => {
                        let new_lo = lo + start;
                        let new_hi = lo + end;
                        proof {
                            assert(binary@.subrange(new_lo as int, new_hi as int)
                                =~= sub@.subrange(start as int, end as int));
                        }
                        lo = new_lo;
                        hi = new_hi;
                    },
                    Err(e) => {
                        return Err(e);
                    },
                }
            },
            None => {
                match loader::parse_error_message(sub) {
                    Some(msg) => {
                        return Err(Error::Goblin(msg));
                    },
                    None => {
                        return Err(Error::UnimplementedBinaryFileFormat);
                    },
                }
            },
        }
    }
}

} // verus!

use vstd::prelude::*;

use crate::mem::StackPointer;

verus! {

/// Flat record of every architectural register slot the emulator backs:
/// sixteen 64-bit general-purpose slots, the instruction pointer, six
/// 16-bit segment slots, the flags register, sixteen control and sixteen
/// debug slots, and eight 32-bit test slots.  Narrower architectural
/// names (32-, 16- and 8-bit aliases) have no storage of their own: a
/// write through such a name overwrites the whole backing slot.
#[derive(Debug, Clone, Copy, PartialEq, Eq, Structural)]
pub struct Registers {
    /// instruction pointer
    pub rip: u64,
    /// register a extended
    pub rax: u64,
    /// register b extended
    pub rbx: u64,
    /// register c extended
    pub rcx: u64,
    /// register d extended
    pub rdx: u64,
    /// base pointer (start of stack)
    pub rbp: u64,
    /// stack pointer (current location in stack, growing downwards)
    pub rsp: StackPointer,
    /// source index (source for data copies)
    pub rsi: u64,
    /// destination index (destination for data copies)
    pub rdi: u64,
    /// register 8
    pub r8: u64,
    /// register 9
    pub r9: u64,
    /// register 10
    pub r10: u64,
    /// register 11
    pub r11: u64,
    /// register 12
    pub r12: u64,
    /// register 13
    pub r13: u64,
    /// register 14
    pub r14: u64,
    /// register 15
    pub r15: u64,
    /// code segment
    pub cs: u16,
    /// data segment
    pub ds: u16,
    /// stack segment
    pub ss: u16,
    /// extra segment
    pub es: u16,
    /// general-purpose segment
    pub fs: u16,
    /// general-purpose segment
    pub gs: u16,
    /// flags register
    pub rflags: u64,
    /// control register 0
    pub cr0: u64,
    /// control register 1
    pub cr1: u64,
    /// control register 2
    pub cr2: u64,
    /// control register 3
    pub cr3: u64,
    /// control register 4
    pub cr4: u64,
    /// control register 5
    pub cr5: u64,
    /// control register 6
    pub cr6: u64,
    /// control register 7
    pub cr7: u64,
    /// control register 8
    pub cr8: u64,
    /// control register 9
    pub cr9: u64,
    /// control register 10
    pub cr10: u64,
    /// control register 11
    pub cr11: u64,
    /// control register 12
    pub cr12: u64,
    /// control register 13
    pub cr13: u64,
    /// control register 14
    pub cr14: u64,
    /// control register 15
    pub cr15: u64,
    /// debug register 0
    pub dr0: u64,
    /// debug register 1
    pub dr1: u64,
    /// debug register 2
    pub dr2: u64,
    /// debug register 3
    pub dr3: u64,
    /// debug register 4
    pub dr4: u64,
    /// debug register 5
    pub dr5: u64,
    /// debug register 6
    pub dr6: u64,
    /// debug register 7
    pub dr7: u64,
    /// debug register 8
    pub dr8: u64,
    /// debug register 9
    pub dr9: u64,
    /// debug register 10
    pub dr10: u64,
    /// debug register 11
    pub dr11: u64,
    /// debug register 12
    pub dr12: u64,
    /// debug register 13
    pub dr13: u64,
    /// debug register 14
    pub dr14: u64,
    /// debug register 15
    pub dr15: u64,
    /// test register 0
    pub tr0: u32,
    /// test register 1
    pub tr1: u32,
    /// test register 2
    pub tr2: u32,
    /// test register 3
    pub tr3: u32,
    /// test register 4
    pub tr4: u32,
    /// test register 5
    pub tr5: u32,
    /// test register 6
    pub tr6: u32,
    /// test register 7
    pub tr7: u32,
}

impl Registers {
    /// Every slot holds zero and the stack pointer is the zero pointer
    /// (offset 0 in a zero-capacity buffer, until the CPU places it).
    pub open spec fn is_reset(&self) -> bool {
        &&& self.rip == 0
        &&& self.rax == 0
        &&& self.rbx == 0
        &&& self.rcx == 0
        &&& self.rdx == 0
        &&& self.rbp == 0
        &&& self.rsp.spec_value() == 0
        &&& self.rsp.capacity() == 0
        &&& self.rsi == 0
        &&& self.rdi == 0
        &&& self.r8 == 0
        &&& self.r9 == 0
        &&& self.r10 == 0
        &&& self.r11 == 0
        &&& self.r12 == 0
        &&& self.r13 == 0
        &&& self.r14 == 0
        &&& self.r15 == 0
        &&& self.cs == 0
        &&& self.ds == 0
        &&& self.ss == 0
        &&& self.es == 0
        &&& self.fs == 0
        &&& self.gs == 0
        &&& self.rflags == 0
        &&& self.cr0 == 0
        &&& self.cr1 == 0
        &&& self.cr2 == 0
        &&& self.cr3 == 0
        &&& self.cr4 == 0
        &&& self.cr5 == 0
        &&& self.cr6 == 0
        &&& self.cr7 == 0
        &&& self.cr8 == 0
        &&& self.cr9 == 0
        &&& self.cr10 == 0
        &&& self.cr11 == 0
        &&& self.cr12 == 0
        &&& self.cr13 == 0
        &&& self.cr14 == 0
        &&& self.cr15 == 0
        &&& self.dr0 == 0
        &&& self.dr1 == 0
        &&& self.dr2 == 0
        &&& self.dr3 == 0
        &&& self.dr4 == 0
        &&& self.dr5 == 0
        &&& self.dr6 == 0
        &&& self.dr7 == 0
        &&& self.dr8 == 0
        &&& self.dr9 == 0
        &&& self.dr10 == 0
        &&& self.dr11 == 0
        &&& self.dr12 == 0
        &&& self.dr13 == 0
        &&& self.dr14 == 0
        &&& self.dr15 == 0
        &&& self.tr0 == 0
        &&& self.tr1 == 0
        &&& self.tr2 == 0
        &&& self.tr3 == 0
        &&& self.tr4 == 0
        &&& self.tr5 == 0
        &&& self.tr6 == 0
        &&& self.tr7 == 0
    }

    /// A zero-initialized register file.
    pub fn new() -> (r: Registers)
        ensures
            r.is_reset(),
    {
        Registers {
            rip: 0,
            rax: 0,
            rbx: 0,
            rcx: 0,
            rdx: 0,
            rbp: 0,
            rsp: Default::default(),
            rsi: 0,
            rdi: 0,
            r8: 0,
            r9: 0,
            r10: 0,
            r11: 0,
            r12: 0,
            r13: 0,
            r14: 0,
            r15: 0,
            cs: 0,
            ds: 0,
            ss: 0,
            es: 0,
            fs: 0,
            gs: 0,
            rflags: 0,
            cr0: 0,
            cr1: 0,
            cr2: 0,
            cr3: 0,
            cr4: 0,
            cr5: 0,
            cr6: 0,
            cr7: 0,
            cr8: 0,
            cr9: 0,
            cr10: 0,
            cr11: 0,
            cr12: 0,
            cr13: 0,
            cr14: 0,
            cr15: 0,
            dr0: 0,
            dr1: 0,
            dr2: 0,
            dr3: 0,
            dr4: 0,
            dr5: 0,
            dr6: 0,
            dr7: 0,
            dr8: 0,
            dr9: 0,
            dr10: 0,
            dr11: 0,
            dr12: 0,
            dr13: 0,
            dr14: 0,
            dr15: 0,
            tr0: 0,
            tr1: 0,
            tr2: 0,
            tr3: 0,
            tr4: 0,
            tr5: 0,
            tr6: 0,
            tr7: 0,
        }
    }
}

impl Default for Registers {
    /// Same as `new`: every slot zero.
    fn default() -> (r: Registers)
        ensures
            r.is_reset(),
    {
        Registers::new()
    }
}

// Register identifiers.
//
// An instruction operand names a register by a small integer, the
// numbering of the decoder library (iced-x86), whose register enum lays
// the names out in contiguous blocks.  Only the block boundaries matter
// here; the integration tests check every boundary against the decoder's
// own enum.  Identifier 0 is the decoder's "no register" value.

/// First 8-bit general-purpose name (`al`).
pub const REG_ID_AL: u32 = 1;

/// Last 8-bit general-purpose name (`r15l`).
pub const REG_ID_R15L: u32 = 20;

/// First 16-bit general-purpose name (`ax`).
pub const REG_ID_AX: u32 = 21;

/// Last 16-bit general-purpose name (`r15w`).
pub const REG_ID_R15W: u32 = 36;

/// First 32-bit general-purpose name (`eax`).
pub const REG_ID_EAX: u32 = 37;

/// Last 32-bit general-purpose name (`r15d`).
pub const REG_ID_R15D: u32 = 52;

/// First 64-bit general-purpose name (`rax`).
pub const REG_ID_RAX: u32 = 53;

/// 64-bit name of the destination index (`rdi`), the first
/// syscall-argument register: seven names past `rax` in the 64-bit
/// block `rax, rcx, rdx, rbx, rsp, rbp, rsi, rdi, r8 ..= r15`.
pub const REG_ID_RDI: u32 = 60;

/// Last 64-bit general-purpose name (`r15`).
pub const REG_ID_R15: u32 = 68;

/// 32-bit instruction pointer name (`eip`).
pub const REG_ID_EIP: u32 = 69;

/// 64-bit instruction pointer name (`rip`).
pub const REG_ID_RIP: u32 = 70;

/// First segment name (`es`); the block runs `es`, `cs`, `ss`, `ds`, `fs`, `gs`.
pub const REG_ID_ES: u32 = 71;

/// Last segment name (`gs`).
pub const REG_ID_GS: u32 = 76;

/// First control-register name (`cr0`).
pub const REG_ID_CR0: u32 = 185;

/// Last control-register name (`cr15`).
pub const REG_ID_CR15: u32 = 200;

/// First debug-register name (`dr0`).
pub const REG_ID_DR0: u32 = 201;

/// Last debug-register name (`dr15`).
pub const REG_ID_DR15: u32 = 216;

/// First test-register name (`tr0`).
pub const REG_ID_TR0: u32 = 233;

/// Last test-register name (`tr7`).
pub const REG_ID_TR7: u32 = 240;

/// The kind of backing slot an architectural register name maps to.
#[derive(Debug, Clone, Copy, PartialEq, Eq, Structural)]
pub enum RegClass {
    /// One of the sixteen 64-bit general-purpose slots.
    Gpr,
    /// The instruction pointer.
    Ip,
    /// One of the six 16-bit segment slots.
    Seg,
    /// One of the sixteen 64-bit control slots.
    Ctrl,
    /// One of the sixteen 64-bit debug slots.
    Dbg,
    /// One of the eight 32-bit test slots.
    Test,
}

/// A register name resolved to its backing slot: the slot's class, its
/// index within the class, and the byte width the name declares.
#[derive(Debug, Clone, Copy, PartialEq, Eq, Structural)]
pub struct ResolvedReg {
    /// Which family of slots backs the name.
    pub class: RegClass,
    /// Index of the slot within its family.  General-purpose slots are
    /// ordered `rax, rcx, rdx, rbx, rsp, rbp, rsi, rdi, r8 ..= r15`.
    pub index: u32,
    /// Byte width the architectural name declares (1, 2, 4 or 8).
    pub width: u32,
}

impl ResolvedReg {
    /// The index lies inside its class and the width is the one the
    /// class and name admit.
    pub open spec fn wf(&self) -> bool {
        match self.class {
            RegClass::Gpr => self.index < 16 && (self.width == 1 || self.width == 2
                || self.width == 4 || self.width == 8),
            RegClass::Ip => self.index == 0 && (self.width == 4 || self.width == 8),
            RegClass::Seg => self.index < 6 && self.width == 2,
            RegClass::Ctrl => self.index < 16 && self.width == 8,
            RegClass::Dbg => self.index < 16 && self.width == 8,
            RegClass::Test => self.index < 8 && self.width == 4,
        }
    }
}

/// Maps a register identifier to its backing slot, or `None` for any
/// name outside the supported enumeration.
///
/// The 8-bit block needs care: its first eight names are the four low
/// bytes `al, cl, dl, bl` followed by the four high bytes `ah, ch, dh,
/// bh`, which alias the same four slots again; from `spl` on, the names
/// follow the 64-bit slot order.
pub open spec fn spec_resolve(id: u32) -> Option<ResolvedReg> {
    if REG_ID_AL <= id <= REG_ID_R15L {
        let index: u32 = if id <= 8 { (((id - 1) % 4) as u32) } else { ((id - 5) as u32) };
        Some(ResolvedReg { class: RegClass::Gpr, index, width: 1 })
    } else if REG_ID_AX <= id <= REG_ID_R15W {
        Some(ResolvedReg { class: RegClass::Gpr, index: ((id - REG_ID_AX) as u32), width: 2 })
    } else if REG_ID_EAX <= id <= REG_ID_R15D {
        Some(ResolvedReg { class: RegClass::Gpr, index: ((id - REG_ID_EAX) as u32), width: 4 })
    } else if REG_ID_RAX <= id <= REG_ID_R15 {
        Some(ResolvedReg { class: RegClass::Gpr, index: ((id - REG_ID_RAX) as u32), width: 8 })
    } else if id == REG_ID_EIP {
        Some(ResolvedReg { class: RegClass::Ip, index: 0, width: 4 })
    } else if id == REG_ID_RIP {
        Some(ResolvedReg { class: RegClass::Ip, index: 0, width: 8 })
    } else if REG_ID_ES <= id <= REG_ID_GS {
        Some(ResolvedReg { class: RegClass::Seg, index: ((id - REG_ID_ES) as u32), width: 2 })
    } else if REG_ID_CR0 <= id <= REG_ID_CR15 {
        Some(ResolvedReg { class: RegClass::Ctrl, index: ((id - REG_ID_CR0) as u32), width: 8 })
    } else if REG_ID_DR0 <= id <= REG_ID_DR15 {
        Some(ResolvedReg { class: RegClass::Dbg, index: ((id - REG_ID_DR0) as u32), width: 8 })
    } else if REG_ID_TR0 <= id <= REG_ID_TR7 {
        Some(ResolvedReg { class: RegClass::Test, index: ((id - REG_ID_TR0) as u32), width: 4 })
    } else {
        None
    }
}

/// Every resolved name is well formed.
pub proof fn lemma_resolve_wf(id: u32)
    ensures
        spec_resolve(id) is Some ==> spec_resolve(id).unwrap().wf(),
{
}

/// Executable twin of `spec_resolve`.
pub fn resolve(id: u32) -> (r: Option<ResolvedReg>)
    ensures
        r == spec_resolve(id),
{
    if REG_ID_AL <= id && id <= REG_ID_R15L {
        let index: u32 = if id <= 8 { (id - 1) % 4 } else { id - 5 };
        Some(ResolvedReg { class: RegClass::Gpr, index, width: 1 })
    } else if REG_ID_AX <= id && id <= REG_ID_R15W {
        Some(ResolvedReg { class: RegClass::Gpr, index: id - REG_ID_AX, width: 2 })
    } else if REG_ID_EAX <= id && id <= REG_ID_R15D {
        Some(ResolvedReg { class: RegClass::Gpr, index: id - REG_ID_EAX, width: 4 })
    } else if REG_ID_RAX <= id && id <= REG_ID_R15 {
        Some(ResolvedReg { class: RegClass::Gpr, index: id - REG_ID_RAX, width: 8 })
    } else if id == REG_ID_EIP {
        Some(ResolvedReg { class: RegClass::Ip, index: 0, width: 4 })
    } else if id == REG_ID_RIP {
        Some(ResolvedReg { class: RegClass::Ip, index: 0, width: 8 })
    } else if REG_ID_ES <= id && id <= REG_ID_GS {
        Some(ResolvedReg { class: RegClass::Seg, index: id - REG_ID_ES, width: 2 })
    } else if REG_ID_CR0 <= id && id <= REG_ID_CR15 {
        Some(ResolvedReg { class: RegClass::Ctrl, index: id - REG_ID_CR0, width: 8 })
    } else if REG_ID_DR0 <= id && id <= REG_ID_DR15 {
        Some(ResolvedReg { class: RegClass::Dbg, index: id - REG_ID_DR0, width: 8 })
    } else if REG_ID_TR0 <= id && id <= REG_ID_TR7 {
        Some(ResolvedReg { class: RegClass::Test, index: id - REG_ID_TR0, width: 4 })
    } else {
        None
    }
}

/// The 64-bit value a resolved slot currently holds.  Segment and test
/// slots are zero-extended; the stack pointer reads as its offset.
pub open spec fn spec_read(regs: Registers, rr: ResolvedReg) -> u64
    recommends
        rr.wf(),
{
    match rr.class {
        RegClass::Gpr => if rr.index == 0 {
            regs.rax
        } else if rr.index == 1 {
            regs.rcx
        } else if rr.index == 2 {
            regs.rdx
        } else if rr.index == 3 {
            regs.rbx
        } else if rr.index == 4 {
            regs.rsp.spec_value()
        } else if rr.index == 5 {
            regs.rbp
        } else if rr.index == 6 {
            regs.rsi
        } else if rr.index == 7 {
            regs.rdi
        } else if rr.index == 8 {
            regs.r8
        } else if rr.index == 9 {
            regs.r9
        } else if rr.index == 10 {
            regs.r10
        } else if rr.index == 11 {
            regs.r11
        } else if rr.index == 12 {
            regs.r12
        } else if rr.index == 13 {
            regs.r13
        } else if rr.index == 14 {
            regs.r14
        } else {
            regs.r15
        },
        RegClass::Ip => regs.rip,
        RegClass::Seg => if rr.index == 0 {
            regs.es as u64
        } else if rr.index == 1 {
            regs.cs as u64
        } else if rr.index == 2 {
            regs.ss as u64
        } else if rr.index == 3 {
            regs.ds as u64
        } else if rr.index == 4 {
            regs.fs as u64
        } else {
            regs.gs as u64
        },
        RegClass::Ctrl => if rr.index == 0 {
            regs.cr0
        } else if rr.index == 1 {
            regs.cr1
        } else if rr.index == 2 {
            regs.cr2
        } else if rr.index == 3 {
            regs.cr3
        } else if rr.index == 4 {
            regs.cr4
        } else if rr.index == 5 {
            regs.cr5
        } else if rr.index == 6 {
            regs.cr6
        } else if rr.index == 7 {
            regs.cr7
        } else if rr.index == 8 {
            regs.cr8
        } else if rr.index == 9 {
            regs.cr9
        } else if rr.index == 10 {
            regs.cr10
        } else if rr.index == 11 {
            regs.cr11
        } else if rr.index == 12 {
            regs.cr12
        } else if rr.index == 13 {
            regs.cr13
        } else if rr.index == 14 {
            regs.cr14
        } else {
            regs.cr15
        },
        RegClass::Dbg => if rr.index == 0 {
            regs.dr0
        } else if rr.index == 1 {
            regs.dr1
        } else if rr.index == 2 {
            regs.dr2
        } else if rr.index == 3 {
            regs.dr3
        } else if rr.index == 4 {
            regs.dr4
        } else if rr.index == 5 {
            regs.dr5
        } else if rr.index == 6 {
            regs.dr6
        } else if rr.index == 7 {
            regs.dr7
        } else if rr.index == 8 {
            regs.dr8
        } else if rr.index == 9 {
            regs.dr9
        } else if rr.index == 10 {
            regs.dr10
        } else if rr.index == 11 {
            regs.dr11
        } else if rr.index == 12 {
            regs.dr12
        } else if rr.index == 13 {
            regs.dr13
        } else if rr.index == 14 {
            regs.dr14
        } else {
            regs.dr15
        },
        RegClass::Test => if rr.index == 0 {
            regs.tr0 as u64
        } else if rr.index == 1 {
            regs.tr1 as u64
        } else if rr.index == 2 {
            regs.tr2 as u64
        } else if rr.index == 3 {
            regs.tr3 as u64
        } else if rr.index == 4 {
            regs.tr4 as u64
        } else if rr.index == 5 {
            regs.tr5 as u64
        } else if rr.index == 6 {
            regs.tr6 as u64
        } else {
            regs.tr7 as u64
        },
    }
}

/// The register file after writing `value` through a resolved slot.
/// The whole backing slot is overwritten: 16-bit and 32-bit slots keep
/// only the low bits of `value`, and a write to the stack-pointer slot
/// re-normalizes the offset modulo `cap`, the stack capacity.
pub open spec fn spec_write(regs: Registers, rr: ResolvedReg, value: u64, cap: u64) -> Registers
    recommends
        rr.wf(),
        cap > 0,
{
    match rr.class {
        RegClass::Gpr => if rr.index == 0 {
            Registers { rax: value, ..regs }
        } else if rr.index == 1 {
            Registers { rcx: value, ..regs }
        } else if rr.index == 2 {
            Registers { rdx: value, ..regs }
        } else if rr.index == 3 {
            Registers { rbx: value, ..regs }
        } else if rr.index == 4 {
            Registers { rsp: StackPointer::spec_new(value, cap), ..regs }
        } else if rr.index == 5 {
            Registers { rbp: value, ..regs }
        } else if rr.index == 6 {
            Registers { rsi: value, ..regs }
        } else if rr.index == 7 {
            Registers { rdi: value, ..regs }
        } else if rr.index == 8 {
            Registers { r8: value, ..regs }
        } else if rr.index == 9 {
            Registers { r9: value, ..regs }
        } else if rr.index == 10 {
            Registers { r10: value, ..regs }
        } else if rr.index == 11 {
            Registers { r11: value, ..regs }
        } else if rr.index == 12 {
            Registers { r12: value, ..regs }
        } else if rr.index == 13 {
            Registers { r13: value, ..regs }
        } else if rr.index == 14 {
            Registers { r14: value, ..regs }
        } else {
            Registers { r15: value, ..regs }
        },
        RegClass::Ip => Registers { rip: value, ..regs },
        RegClass::Seg => if rr.index == 0 {
            Registers { es: value as u16, ..regs }
        } else if rr.index == 1 {
            Registers { cs: value as u16, ..regs }
        } else if rr.index == 2 {
            Registers { ss: value as u16, ..regs }
        } else if rr.index == 3 {
            Registers { ds: value as u16, ..regs }
        } else if rr.index == 4 {
            Registers { fs: value as u16, ..regs }
        } else {
            Registers { gs: value as u16, ..regs }
        },
        RegClass::Ctrl => if rr.index == 0 {
            Registers { cr0: value, ..regs }
        } else if rr.index == 1 {
            Registers { cr1: value, ..regs }
        } else if rr.index == 2 {
            Registers { cr2: value, ..regs }
        } else if rr.index == 3 {
            Registers { cr3: value, ..regs }
        } else if rr.index == 4 {
            Registers { cr4: value, ..regs }
        } else if rr.index == 5 {
            Registers { cr5: value, ..regs }
        } else if rr.index == 6 {
            Registers { cr6: value, ..regs }
        } else if rr.index == 7 {
            Registers { cr7: value, ..regs }
        } else if rr.index == 8 {
            Registers { cr8: value, ..regs }
        } else if rr.index == 9 {
            Registers { cr9: value, ..regs }
        } else if rr.index == 10 {
            Registers { cr10: value, ..regs }
        } else if rr.index == 11 {
            Registers { cr11: value, ..regs }
        } else if rr.index == 12 {
            Registers { cr12: value, ..regs }
        } else if rr.index == 13 {
            Registers { cr13: value, ..regs }
        } else if rr.index == 14 {
            Registers { cr14: value, ..regs }
        } else {
            Registers { cr15: value, ..regs }
        },
        RegClass::Dbg => if rr.index == 0 {
            Registers { dr0: value, ..regs }
        } else if rr.index == 1 {
            Registers { dr1: value, ..regs }
        } else if rr.index == 2 {
            Registers { dr2: value, ..regs }
        } else if rr.index == 3 {
            Registers { dr3: value, ..regs }
        } else if rr.index == 4 {
            Registers { dr4: value, ..regs }
        } else if rr.index == 5 {
            Registers { dr5: value, ..regs }
        } else if rr.index == 6 {
            Registers { dr6: value, ..regs }
        } else if rr.index == 7 {
            Registers { dr7: value, ..regs }
        } else if rr.index == 8 {
            Registers { dr8: value, ..regs }
        } else if rr.index == 9 {
            Registers { dr9: value, ..regs }
        } else if rr.index == 10 {
            Registers { dr10: value, ..regs }
        } else if rr.index == 11 {
            Registers { dr11: value, ..regs }
        } else if rr.index == 12 {
            Registers { dr12: value, ..regs }
        } else if rr.index == 13 {
            Registers { dr13: value, ..regs }
        } else if rr.index == 14 {
            Registers { dr14: value, ..regs }
        } else {
            Registers { dr15: value, ..regs }
        },
        RegClass::Test => if rr.index == 0 {
            Registers { tr0: value as u32, ..regs }
        } else if rr.index == 1 {
            Registers { tr1: value as u32, ..regs }
        } else if rr.index == 2 {
            Registers { tr2: value as u32, ..regs }
        } else if rr.index == 3 {
            Registers { tr3: value as u32, ..regs }
        } else if rr.index == 4 {
            Registers { tr4: value as u32, ..regs }
        } else if rr.index == 5 {
            Registers { tr5: value as u32, ..regs }
        } else if rr.index == 6 {
            Registers { tr6: value as u32, ..regs }
        } else {
            Registers { tr7: value as u32, ..regs }
        },
    }
}

impl Registers {
    /// Reads the 64-bit value of a resolved slot.
    pub fn read_slot(&self, rr: ResolvedReg) -> (r: u64)
        ensures
            r == spec_read(*self, rr),
    {
        match rr.class {
            RegClass::Gpr => if rr.index == 0 {
                self.rax
            } else if rr.index == 1 {
                self.rcx
            } else if rr.index == 2 {
                self.rdx
            } else if rr.index == 3 {
                self.rbx
            } else if rr.index == 4 {
                self.rsp.value()
            } else if rr.index == 5 {
                self.rbp
            } else if rr.index == 6 {
                self.rsi
            } else if rr.index == 7 {
                self.rdi
            } else if rr.index == 8 {
                self.r8
            } else if rr.index == 9 {
                self.r9
            } else if rr.index == 10 {
                self.r10
            } else if rr.index == 11 {
                self.r11
            } else if rr.index == 12 {
                self.r12
            } else if rr.index == 13 {
                self.r13
            } else if rr.index == 14 {
                self.r14
            } else {
                self.r15
            },
            RegClass::Ip => self.rip,
            RegClass::Seg => if rr.index == 0 {
                self.es as u64
            } else if rr.index == 1 {
                self.cs as u64
            } else if rr.index == 2 {
                self.ss as u64
            } else if rr.index == 3 {
                self.ds as u64
            } else if rr.index == 4 {
                self.fs as u64
            } else {
                self.gs as u64
            },
            RegClass::Ctrl => if rr.index == 0 {
                self.cr0
            } else if rr.index == 1 {
                self.cr1
            } else if rr.index == 2 {
                self.cr2
            } else if rr.index == 3 {
                self.cr3
            } else if rr.index == 4 {
                self.cr4
            } else if rr.index == 5 {
                self.cr5
            } else if rr.index == 6 {
                self.cr6
            } else if rr.index == 7 {
                self.cr7
            } else if rr.index == 8 {
                self.cr8
            } else if rr.index == 9 {
                self.cr9
            } else if rr.index == 10 {
                self.cr10
            } else if rr.index == 11 {
                self.cr11
            } else if rr.index == 12 {
                self.cr12
            } else if rr.index == 13 {
                self.cr13
            } else if rr.index == 14 {
                self.cr14
            } else {
                self.cr15
            },
            RegClass::Dbg => if rr.index == 0 {
                self.dr0
            } else if rr.index == 1 {
                self.dr1
            } else if rr.index == 2 {
                self.dr2
            } else if rr.index == 3 {
                self.dr3
            } else if rr.index == 4 {
                self.dr4
            } else if rr.index == 5 {
                self.dr5
            } else if rr.index == 6 {
                self.dr6
            } else if rr.index == 7 {
                self.dr7
            } else if rr.index == 8 {
                self.dr8
            } else if rr.index == 9 {
                self.dr9
            } else if rr.index == 10 {
                self.dr10
            } else if rr.index == 11 {
                self.dr11
            } else if rr.index == 12 {
                self.dr12
            } else if rr.index == 13 {
                self.dr13
            } else if rr.index == 14 {
                self.dr14
            } else {
                self.dr15
            },
            RegClass::Test => if rr.index == 0 {
                self.tr0 as u64
            } else if rr.index == 1 {
                self.tr1 as u64
            } else if rr.index == 2 {
                self.tr2 as u64
            } else if rr.index == 3 {
                self.tr3 as u64
            } else if rr.index == 4 {
                self.tr4 as u64
            } else if rr.index == 5 {
                self.tr5 as u64
            } else if rr.index == 6 {
                self.tr6 as u64
            } else {
                self.tr7 as u64
            },
        }
    }

    /// Writes `value` through a resolved slot, overwriting the whole
    /// backing slot; `cap` is the stack capacity used to re-normalize a
    /// stack-pointer write.
    pub fn write_slot(&mut self, rr: ResolvedReg, value: u64, cap: u64)
        requires
            cap > 0,
        ensures
            *final(self) == spec_write(*old(self), rr, value, cap),
    {
        match rr.class {
            RegClass::Gpr => if rr.index == 0 {
                self.rax = value;
            } else if rr.index == 1 {
                self.rcx = value;
            } else if rr.index == 2 {
                self.rdx = value;
            } else if rr.index == 3 {
                self.rbx = value;
            } else if rr.index == 4 {
                self.rsp = StackPointer::new(value, cap);
            } else if rr.index == 5 {
                self.rbp = value;
            } else if rr.index == 6 {
                self.rsi = value;
            } else if rr.index == 7 {
                self.rdi = value;
            } else if rr.index == 8 {
                self.r8 = value;
            } else if rr.index == 9 {
                self.r9 = value;
            } else if rr.index == 10 {
                self.r10 = value;
            } else if rr.index == 11 {
                self.r11 = value;
            } else if rr.index == 12 {
                self.r12 = value;
            } else if rr.index == 13 {
                self.r13 = value;
            } else if rr.index == 14 {
                self.r14 = value;
            } else {
                self.r15 = value;
            },
            RegClass::Ip => {
                self.rip = value;
            },
            RegClass::Seg => if rr.index == 0 {
                self.es = value as u16;
            } else if rr.index == 1 {
                self.cs = value as u16;
            } else if rr.index == 2 {
                self.ss = value as u16;
            } else if rr.index == 3 {
                self.ds = value as u16;
            } else if rr.index == 4 {
                self.fs = value as u16;
            } else {
                self.gs = value as u16;
            },
            RegClass::Ctrl => if rr.index == 0 {
                self.cr0 = value;
            } else if rr.index == 1 {
                self.cr1 = value;
            } else if rr.index == 2 {
                self.cr2 = value;
            } else if rr.index == 3 {
                self.cr3 = value;
            } else if rr.index == 4 {
                self.cr4 = value;
            } else if rr.index == 5 {
                self.cr5 = value;
            } else if rr.index == 6 {
                self.cr6 = value;
            } else if rr.index == 7 {
                self.cr7 = value;
            } else if rr.index == 8 {
                self.cr8 = value;
            } else if rr.index == 9 {
                self.cr9 = value;
            } else if rr.index == 10 {
                self.cr10 = value;
            } else if rr.index == 11 {
                self.cr11 = value;
            } else if rr.index == 12 {
                self.cr12 = value;
            } else if rr.index == 13 {
                self.cr13 = value;
            } else if rr.index == 14 {
                self.cr14 = value;
            } else {
                self.cr15 = value;
            },
            RegClass::Dbg => if rr.index == 0 {
                self.dr0 = value;
            } else if rr.index == 1 {
                self.dr1 = value;
            } else if rr.index == 2 {
                self.dr2 = value;
            } else if rr.index == 3 {
                self.dr3 = value;
            } else if rr.index == 4 {
                self.dr4 = value;
            } else if rr.index == 5 {
                self.dr5 = value;
            } else if rr.index == 6 {
                self.dr6 = value;
            } else if rr.index == 7 {
                self.dr7 = value;
            } else if rr.index == 8 {
                self.dr8 = value;
            } else if rr.index == 9 {
                self.dr9 = value;
            } else if rr.index == 10 {
                self.dr10 = value;
            } else if rr.index == 11 {
                self.dr11 = value;
            } else if rr.index == 12 {
                self.dr12 = value;
            } else if rr.index == 13 {
                self.dr13 = value;
            } else if rr.index == 14 {
                self.dr14 = value;
            } else {
                self.dr15 = value;
            },
            RegClass::Test => if rr.index == 0 {
                self.tr0 = value as u32;
            } else if rr.index == 1 {
                self.tr1 = value as u32;
            } else if rr.index == 2 {
                self.tr2 = value as u32;
            } else if rr.index == 3 {
                self.tr3 = value as u32;
            } else if rr.index == 4 {
                self.tr4 = value as u32;
            } else if rr.index == 5 {
                self.tr5 = value as u32;
            } else if rr.index == 6 {
                self.tr6 = value as u32;
            } else {
                self.tr7 = value as u32;
            },
        }
    }
}

} // verus!

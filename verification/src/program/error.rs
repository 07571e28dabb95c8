use vstd::prelude::*;

verus! {

/// Failures of the loader, the syscall layer and the execution loop.
/// Every one is fatal to the current run; nothing is retried or
/// swallowed.
#[derive(Debug, Clone, PartialEq, Eq)]
pub enum Error {
    /// A CPU-core failure, wrapped and propagated.
    Cpu(crate::cpu::error::Error),
    /// The container parser rejected the image; carries its message.
    Goblin(String),
    /// The instruction decoder rejected a reposition; carries its
    /// message.
    Iced(String),
    /// A `write` syscall handed bytes that are not valid UTF-8.
    FromUtf8Error,
    /// The program retargeted the instruction pointer outside the loaded
    /// image; there is no memory beyond the one mapped region.
    UnimplementedInstructionPointerOutsideProgramSpace,
    /// A syscall number other than `write` and `exit`.
    UnimplementedSyscall(u64),
    /// A `write` to a descriptor other than stdout (1) and stderr (2).
    UnimplementedFileDescriptor(u64),
    /// A recognized container format the emulator does not load, or an
    /// unrecognized one.
    UnimplementedBinaryFileFormat,
    /// The instruction stream ended or broke before an `exit` syscall.
    ProgramDidNotExit,
    /// An ELF image with no loadable segment to derive the load base
    /// from.
    ElfLoadHeaderMissing,
    /// A PE image without the optional header that holds the image base
    /// and entry point.
    PeOptionalHeaderMissing,
    /// A Mach-O image without the load command that records the entry
    /// point.
    MachOLoadCommandMissing,
    /// A fat Mach-O with no valid x86 slice inside the buffer.
    MachFatNoX86,
}

} // verus!

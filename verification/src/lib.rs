//! A minimal x86-64 user-mode process emulator.
//!
//! Given the raw bytes of an executable image (ELF, PE, or Mach-O,
//! including fat Mach-O), the library locates the entry point, decodes
//! and interprets a restricted subset of x86-64 instructions against a
//! synthetic register file and a small bounded stack, intercepts the
//! `write` and `exit` syscalls, and reports the captured output and exit
//! code.  It can also resolve the image's exported symbols without
//! executing it.

pub mod cpu;
pub mod mem;
pub mod program;

use vstd::prelude::*;

verus! {

/// Capacity of the emulated stack buffer, in bytes.
pub const STACK_SIZE: u64 = 1024;

} // verus!

use vstd::prelude::*;

use goblin::mach::exports::ExportInfo::Regular;

use crate::program::error::Error;
use crate::program::exports::ExportMap;

verus! {

// The container formats are parsed by an outside library (goblin).  Each
// wrapper below parses the raw bytes once and hands back, as plain
// values, exactly the fields this loader reads; everything decided from
// those fields — load base, entry offset, fat-slice selection, export
// filtering — is verified below.

/// ELF segment type of a loadable segment.
pub const ELF_PT_LOAD: u32 = 1;

/// Mach-O CPU type of 32-bit x86.
pub const MACH_CPU_TYPE_X86: u32 = 7;

/// Mach-O CPU type of 64-bit x86 (the x86 type with the 64-bit ABI flag).
pub const MACH_CPU_TYPE_X86_64: u32 = 0x0100_0007;

/// One ELF program header, reduced to what the loader reads.
#[derive(Debug, Clone, Copy, PartialEq, Eq, Structural)]
pub struct SegmentInfo {
    /// The segment's type field.
    pub p_type: u32,
    /// The segment's virtual address.
    pub p_vaddr: u64,
}

/// An ELF image, reduced to what entry-point resolution reads.
#[derive(Debug, Clone, PartialEq, Eq)]
pub struct ElfImage {
    /// Whether the image is 64-bit.
    pub is_64: bool,
    /// The header's entry-point virtual address.
    pub entry: u64,
    /// All program headers, in file order.
    pub segments: Vec<SegmentInfo>,
}

/// A PE optional header, reduced to what entry-point resolution reads.
#[derive(Debug, Clone, Copy, PartialEq, Eq, Structural)]
pub struct PeOptionalInfo {
    /// The preferred load address of the image.
    pub image_base: u64,
    /// The entry point, as a relative virtual address.
    pub entry_rva: u64,
}

/// A PE image, reduced to what entry-point resolution reads.
#[derive(Debug, Clone, Copy, PartialEq, Eq, Structural)]
pub struct PeImage {
    /// Whether the image is PE32+.
    pub is_64: bool,
    /// The optional header, where the image has one.
    pub optional: Option<PeOptionalInfo>,
}

/// A thin Mach-O image, reduced to what entry-point resolution reads.
#[derive(Debug, Clone, Copy, PartialEq, Eq, Structural)]
pub struct MachImage {
    /// Whether the image is 64-bit.
    pub is_64: bool,
    /// The entry point, as a virtual address.
    pub entry: u64,
    /// The file offset of the entry point, from the image's main load
    /// command, where that command exists.
    pub main_entryoff: Option<u64>,
}

/// One slice of a fat Mach-O container.
#[derive(Debug, Clone, Copy, PartialEq, Eq, Structural)]
pub struct FatArchInfo {
    /// The slice's CPU type.
    pub cputype: u32,
    /// The slice's byte offset inside the container.
    pub offset: u64,
    /// The slice's byte length.
    pub size: u64,
}

/// One ELF symbol-table entry, reduced to what export resolution reads.
#[derive(Debug, Clone, PartialEq, Eq)]
pub struct SymbolInfo {
    /// The symbol's value (its address).
    pub value: u64,
    /// The symbol's name, where the string table has one for it.
    pub name: Option<String>,
}

/// One PE export-directory entry, reduced to what export resolution
/// reads.
#[derive(Debug, Clone, PartialEq, Eq)]
pub struct PeExportInfo {
    /// The export's name, where it has one.
    pub name: Option<String>,
    /// The export's relative virtual address.
    pub rva: u64,
}

/// One Mach-O export record, reduced to what export resolution reads.
#[derive(Debug, Clone, PartialEq, Eq)]
pub struct MachExportInfo {
    /// The exported symbol's name.
    pub name: String,
    /// The exported symbol's address; zero for non-regular records,
    /// which are skipped anyway.
    pub address: u64,
    /// Whether the record is a regular export (as opposed to a reexport
    /// or a stub).
    pub regular: bool,
}

/// The Mach-O export table, or why there is none.
#[derive(Debug, Clone, PartialEq, Eq)]
pub enum MachExports {
    /// The bytes are not a thin Mach-O image.
    NotMach,
    /// The image is Mach-O but its export trie could not be read;
    /// carries the parser's message.
    Failed(String),
    /// The export records.
    Found(Vec<MachExportInfo>),
}


// Goblin's parse results are functions of the input bytes alone, so each
// wrapper's result carries a name: an uninterpreted spec function of the
// bytes that the wrapper's ensures ties to what it returned.  The
// loaders' contracts are stated over these names.

/// What the container parser reads out of an ELF image: its width, its
/// entry address and its program headers — or nothing, where the bytes
/// are no ELF image.
pub uninterp spec fn elf_image_of(bytes: Seq<u8>) -> Option<(bool, u64, Seq<SegmentInfo>)>;

/// What the container parser reads out of an ELF symbol table, names
/// resolved against the string table — or nothing, where the bytes are
/// no ELF image.
pub uninterp spec fn elf_symbols_of(bytes: Seq<u8>) -> Option<Seq<SymbolInfo>>;

/// What the container parser reads out of a PE image: its width and its
/// optional header — or nothing, where the bytes are no PE image.
pub uninterp spec fn pe_image_of(bytes: Seq<u8>) -> Option<PeImage>;

/// What the container parser reads out of a PE export directory — or
/// nothing, where the bytes are no PE image.
pub uninterp spec fn pe_exports_of(bytes: Seq<u8>) -> Option<Seq<PeExportInfo>>;

/// What the container parser reads out of a thin Mach-O image: its
/// width, its entry address and its main load command's entry offset —
/// or nothing, where the bytes are no thin Mach-O image.
pub uninterp spec fn mach_image_of(bytes: Seq<u8>) -> Option<MachImage>;

/// What the container parser reads out of a thin Mach-O export trie:
/// the records, or the parser's message where the trie cannot be read —
/// or nothing at all, where the bytes are no thin Mach-O image.
pub uninterp spec fn mach_exports_of(bytes: Seq<u8>) -> Option<
    Result<Seq<MachExportInfo>, String>,
>;

/// What the container parser reads out of a fat Mach-O container: its
/// slice table (empty where the table cannot be read) — or nothing,
/// where the bytes are no fat container.
pub uninterp spec fn fat_arches_of(bytes: Seq<u8>) -> Option<Seq<FatArchInfo>>;

/// The container parser's error message, where the bytes parse as no
/// known container at all.
pub uninterp spec fn parse_error_of(bytes: Seq<u8>) -> Option<String>;

/// Relies on goblin::Object::parse: recognizes an ELF image and exposes
/// its width, entry address and program headers.
#[verifier::external_body]
pub(crate) fn parse_elf(bytes: &[u8]) -> (r: Option<ElfImage>)
    ensures
        r is Some <==> elf_image_of(bytes@) is Some,
        r is Some ==> elf_image_of(bytes@) == Some(
            (r.unwrap().is_64, r.unwrap().entry, r.unwrap().segments@),
        ),
{
    match goblin::Object::parse(bytes) {
        Ok(goblin::Object::Elf(elf)) => Some(ElfImage {
            is_64: elf.is_64,
            entry: elf.header.e_entry,
            segments: elf.program_headers.iter().map(
                |h| SegmentInfo { p_type: h.p_type, p_vaddr: h.p_vaddr },
            ).collect(),
        }),
        _ => None,
    }
}

/// Relies on goblin::Object::parse: recognizes an ELF image and exposes
/// its symbol table, each symbol's name looked up in the string table.
#[verifier::external_body]
pub(crate) fn parse_elf_symbols(bytes: &[u8]) -> (r: Option<Vec<SymbolInfo>>)
    ensures
        r is Some <==> elf_symbols_of(bytes@) is Some,
        r is Some ==> elf_symbols_of(bytes@) == Some(r.unwrap()@),
{
    match goblin::Object::parse(bytes) {
        Ok(goblin::Object::Elf(elf)) => Some(elf.syms.iter().map(
            |s| SymbolInfo {
                value: s.st_value,
                name: elf.strtab.get_at(s.st_name).map(|n| n.to_string()),
            },
        ).collect()),
        _ => None,
    }
}

/// Relies on goblin::Object::parse: recognizes a PE image and exposes
/// its width, image base and entry-point address.
#[verifier::external_body]
pub(crate) fn parse_pe(bytes: &[u8]) -> (r: Option<PeImage>)
    ensures
        r == pe_image_of(bytes@),
{
    match goblin::Object::parse(bytes) {
        Ok(goblin::Object::PE(pe)) => Some(PeImage {
            is_64: pe.is_64,
            optional: pe.header.optional_header.map(
                |oh| PeOptionalInfo {
                    image_base: oh.windows_fields.image_base,
                    entry_rva: oh.standard_fields.address_of_entry_point as u64,
                },
            ),
        }),
        _ => None,
    }
}

/// Relies on goblin::Object::parse: recognizes a PE image and exposes
/// its export directory.
#[verifier::external_body]
pub(crate) fn parse_pe_exports(bytes: &[u8]) -> (r: Option<Vec<PeExportInfo>>)
    ensures
        r is Some <==> pe_exports_of(bytes@) is Some,
        r is Some ==> pe_exports_of(bytes@) == Some(r.unwrap()@),
{
    match goblin::Object::parse(bytes) {
        Ok(goblin::Object::PE(pe)) => Some(pe.exports.iter().map(
            |e| PeExportInfo { name: e.name.map(|n| n.to_string()), rva: e.rva as u64 },
        ).collect()),
        _ => None,
    }
}

/// Relies on goblin::Object::parse: recognizes a thin Mach-O image and
/// exposes its width, entry address and the entry file offset of its
/// main load command.
#[verifier::external_body]
pub(crate) fn parse_mach_binary(bytes: &[u8]) -> (r: Option<MachImage>)
    ensures
        r == mach_image_of(bytes@),
{
    match goblin::Object::parse(bytes) {
        Ok(goblin::Object::Mach(goblin::mach::Mach::Binary(mach))) => Some(MachImage {
            is_64: mach.is_64,
            entry: mach.entry,
            main_entryoff: mach.load_commands.iter().find_map(
                |lc| match lc.command {
                    goblin::mach::load_command::CommandVariant::Main(m) => Some(m.entryoff),
                    _ => None,
                },
            ),
        }),
        _ => None,
    }
}

/// Relies on goblin::Object::parse and goblin's Mach-O export trie:
/// recognizes a thin Mach-O image and exposes its export records, each
/// marked regular or not.
#[verifier::external_body]
pub(crate) fn parse_mach_exports(bytes: &[u8]) -> (r: MachExports)
    ensures
        match r {
            MachExports::NotMach => mach_exports_of(bytes@) is None,
            MachExports::Failed(m) => mach_exports_of(bytes@) == Some(
                Err::<Seq<MachExportInfo>, String>(m),
            ),
            MachExports::Found(v) => mach_exports_of(bytes@) == Some(
                Ok::<Seq<MachExportInfo>, String>(v@),
            ),
        },
{
    match goblin::Object::parse(bytes) {
        Ok(goblin::Object::Mach(goblin::mach::Mach::Binary(mach))) => match mach.exports() {
            Ok(exports) => MachExports::Found(exports.into_iter().map(|e| match e.info {
                Regular { address, .. } => MachExportInfo { name: e.name, address, regular: true },
                _ => MachExportInfo { name: e.name, address: 0, regular: false },
            }).collect()),
            Err(e) => MachExports::Failed(format!("{}", e)),
        },
        _ => MachExports::NotMach,
    }
}

/// Relies on goblin::Object::parse and goblin::mach::MultiArch::arches:
/// recognizes a fat Mach-O container and exposes its slice table.  Where
/// the slice table cannot be read, the list is empty, which the callers
/// treat as "no usable slice" exactly as they treat a table with no x86
/// entry.
#[verifier::external_body]
pub(crate) fn parse_fat_arches(bytes: &[u8]) -> (r: Option<Vec<FatArchInfo>>)
    ensures
        r is Some <==> fat_arches_of(bytes@) is Some,
        r is Some ==> fat_arches_of(bytes@) == Some(r.unwrap()@),
{
    match goblin::Object::parse(bytes) {
        Ok(goblin::Object::Mach(goblin::mach::Mach::Fat(fat))) => Some(
            fat.arches().unwrap_or_default().iter().map(
                |a| FatArchInfo {
                    cputype: a.cputype,
                    offset: a.offset as u64,
                    size: a.size as u64,
                },
            ).collect(),
        ),
        _ => None,
    }
}

/// Relies on goblin::Object::parse: where the bytes parse as no known
/// container at all, the parser's error message.
#[verifier::external_body]
pub(crate) fn parse_error_message(bytes: &[u8]) -> (r: Option<String>)
    ensures
        r == parse_error_of(bytes@),
{
    match goblin::Object::parse(bytes) {
        Ok(_) => None,
        Err(e) => Some(format!("{}", e)),
    }
}

// Verified resolution logic over the plain parsed values.

/// The load base an ELF image's segments determine: the lowest virtual
/// address among the loadable segments, or nothing when no loadable
/// segment exists.
pub open spec fn spec_elf_load_base(segments: Seq<SegmentInfo>) -> Option<u64>
    decreases segments.len(),
{
    if segments.len() == 0 {
        None
    } else {
        let rest = spec_elf_load_base(segments.drop_last());
        let s = segments.last();
        if s.p_type != ELF_PT_LOAD {
            rest
        } else {
            match rest {
                None => Some(s.p_vaddr),
                Some(m) => if s.p_vaddr < m {
                    Some(s.p_vaddr)
                } else {
                    Some(m)
                },
            }
        }
    }
}

/// The x86 slice a fat container offers: the first slice whose CPU type
/// is 32-bit x86, or, when there is none, the first whose CPU type is
/// 64-bit x86.
pub open spec fn spec_find_x86_arch(arches: Seq<FatArchInfo>) -> Option<FatArchInfo> {
    match spec_find_cputype(arches, MACH_CPU_TYPE_X86) {
        Some(a) => Some(a),
        None => spec_find_cputype(arches, MACH_CPU_TYPE_X86_64),
    }
}

/// The first slice with the given CPU type.
pub open spec fn spec_find_cputype(arches: Seq<FatArchInfo>, cputype: u32) -> Option<FatArchInfo>
    decreases arches.len(),
{
    if arches.len() == 0 {
        None
    } else if arches.first().cputype == cputype {
        Some(arches.first())
    } else {
        spec_find_cputype(arches.drop_first(), cputype)
    }
}

/// Executable twin of `spec_find_cputype`.
fn find_cputype(arches: &Vec<FatArchInfo>, cputype: u32) -> (r: Option<FatArchInfo>)
    ensures
        r == spec_find_cputype(arches@, cputype),
{
    let n = arches.len();
    let mut i: usize = 0;
    proof {
        assert(arches@.skip(0) =~= arches@);
    }
    while i < n
        invariant
            i <= n,
            n == arches@.len(),
            spec_find_cputype(arches@, cputype) == spec_find_cputype(arches@.skip(i as int), cputype),
        decreases n - i,
    {
        proof {
            assert(arches@.skip(i as int).first() == arches@[i as int]);
            assert(arches@.skip(i as int).drop_first() =~= arches@.skip((i + 1) as int));
        }
        if arches[i].cputype == cputype {
            return Some(arches[i]);
        }
        i += 1;
    }
    proof {
        assert(arches@.skip(n as int) =~= Seq::<FatArchInfo>::empty());
    }
    None
}

/// How an instruction decoder must be placed at an image's entry point:
/// its bitness, the instruction pointer to build it with, the file
/// offset of the entry, and the instruction pointer of the entry itself.
/// The difference `entry_ip - entry_offset` is the image's load base,
/// which the execution loop re-derives when control transfers.
#[derive(Debug, Clone, Copy, PartialEq, Eq, Structural)]
pub struct EntryPlan {
    /// 32 or 64.
    pub bitness: u32,
    /// Instruction pointer the decoder is constructed with.
    pub decoder_ip: u64,
    /// File offset of the entry instruction.
    pub entry_offset: u64,
    /// Virtual address of the entry instruction.
    pub entry_ip: u64,
}

/// Resolves an ELF image's entry point: the load base is the lowest
/// loadable-segment address, the entry file offset is the entry address
/// less the base (saturating at zero), and a decoder starts at the base.
/// Fails with `ElfLoadHeaderMissing` when no loadable segment exists.
pub fn elf_entry_plan(image: &ElfImage) -> (r: Result<EntryPlan, Error>)
    ensures
        match spec_elf_load_base(image.segments@) {
            Some(base) => r == Ok::<EntryPlan, Error>(EntryPlan {
                bitness: if image.is_64 { 64u32 } else { 32u32 },
                decoder_ip: base,
                entry_offset: if image.entry >= base { (image.entry - base) as u64 } else { 0u64 },
                entry_ip: image.entry,
            }),
            None => r == Err::<EntryPlan, Error>(Error::ElfLoadHeaderMissing),
        },
{
    let n = image.segments.len();
    let mut base: Option<u64> = None;
    let mut i: usize = 0;
    while i < n
        invariant
            i <= n,
            n == image.segments@.len(),
            base == spec_elf_load_base(image.segments@.take(i as int)),
        decreases n - i,
    {
        proof {
            assert(image.segments@.take((i + 1) as int).drop_last() =~= image.segments@.take(
                i as int,
            ));
        }
        let s = image.segments[i];
        if s.p_type == ELF_PT_LOAD {
            base = match base {
                None => Some(s.p_vaddr),
                Some(m) => if s.p_vaddr < m {
                    Some(s.p_vaddr)
                } else {
                    Some(m)
                },
            };
        }
        i += 1;
    }
    proof {
        assert(image.segments@.take(n as int) =~= image.segments@);
    }
    match base {
        Some(base) => Ok(EntryPlan {
            bitness: if image.is_64 { 64 } else { 32 },
            decoder_ip: base,
            entry_offset: image.entry.saturating_sub(base),
            entry_ip: image.entry,
        }),
        None => Err(Error::ElfLoadHeaderMissing),
    }
}

/// Resolves a PE image's entry point: the load base is the optional
/// header's image base, the entry is its address-of-entry-point field,
/// and the entry file offset is the entry less the base (saturating at
/// zero).  Fails with `PeOptionalHeaderMissing` when the optional header
/// is absent.
pub fn pe_entry_plan(image: &PeImage) -> (r: Result<EntryPlan, Error>)
    ensures
        match image.optional {
            Some(oh) => r == Ok::<EntryPlan, Error>(EntryPlan {
                bitness: if image.is_64 { 64u32 } else { 32u32 },
                decoder_ip: oh.entry_rva,
                entry_offset: if oh.entry_rva >= oh.image_base {
                    (oh.entry_rva - oh.image_base) as u64
                } else {
                    0u64
                },
                entry_ip: oh.entry_rva,
            }),
            None => r == Err::<EntryPlan, Error>(Error::PeOptionalHeaderMissing),
        },
{
    match image.optional {
        Some(oh) => Ok(EntryPlan {
            bitness: if image.is_64 { 64 } else { 32 },
            decoder_ip: oh.entry_rva,
            entry_offset: oh.entry_rva.saturating_sub(oh.image_base),
            entry_ip: oh.entry_rva,
        }),
        None => Err(Error::PeOptionalHeaderMissing),
    }
}

/// Resolves a thin Mach-O image's entry point: the entry file offset is
/// the main load command's recorded offset and the entry address is the
/// image's reported entry value.  Fails with `MachOLoadCommandMissing`
/// when the image has no main load command.
pub fn mach_entry_plan(image: &MachImage) -> (r: Result<EntryPlan, Error>)
    ensures
        match image.main_entryoff {
            Some(entryoff) => r == Ok::<EntryPlan, Error>(EntryPlan {
                bitness: if image.is_64 { 64u32 } else { 32u32 },
                decoder_ip: image.entry,
                entry_offset: entryoff,
                entry_ip: image.entry,
            }),
            None => r == Err::<EntryPlan, Error>(Error::MachOLoadCommandMissing),
        },
{
    match image.main_entryoff {
        Some(entryoff) => Ok(EntryPlan {
            bitness: if image.is_64 { 64 } else { 32 },
            decoder_ip: image.entry,
            entry_offset: entryoff,
            entry_ip: image.entry,
        }),
        None => Err(Error::MachOLoadCommandMissing),
    }
}

/// Whether the slice `[offset, offset + size)` is a valid sub-slice of a
/// buffer of `len` bytes: the start lies strictly inside the buffer, the
/// end does not overflow and stays within the buffer.
pub open spec fn spec_slice_in_bounds(a: FatArchInfo, len: usize) -> bool {
    &&& a.offset < len
    &&& a.offset + a.size <= len
}

/// The slice the fat-container rules select from a slice table over a
/// buffer of `len` bytes: the x86 slice's start and end offsets, or
/// `MachFatNoX86` where no x86 slice exists or its bounds leave the
/// buffer.
pub open spec fn spec_fat_slice(arches: Seq<FatArchInfo>, len: nat) -> Result<(int, int), Error> {
    match spec_find_x86_arch(arches) {
        Some(a) => if a.offset < len && a.offset + a.size <= len {
            Ok((a.offset as int, a.offset + a.size))
        } else {
            Err(Error::MachFatNoX86)
        },
        None => Err(Error::MachFatNoX86),
    }
}

/// Selects the x86 slice of a fat Mach-O container and validates its
/// bounds against the container's length.  Returns the slice's start and
/// end offsets; any failure — no x86 slice, a start at or past the end
/// of the buffer, or an end past it — is `MachFatNoX86`.
pub fn fat_x86_slice(arches: &Vec<FatArchInfo>, len: usize) -> (r: Result<(usize, usize), Error>)
    ensures
        match spec_find_x86_arch(arches@) {
            Some(a) => if spec_slice_in_bounds(a, len) {
                r == Ok::<(usize, usize), Error>((a.offset as usize, (a.offset + a.size) as usize))
            } else {
                r == Err::<(usize, usize), Error>(Error::MachFatNoX86)
            },
            None => r == Err::<(usize, usize), Error>(Error::MachFatNoX86),
        },
        r is Ok ==> r->Ok_0.0 <= r->Ok_0.1 <= len,
        ({
            let s = spec_fat_slice(arches@, len as nat);
            match s {
                Ok(bounds) => r is Ok && r->Ok_0.0 == bounds.0 && r->Ok_0.1 == bounds.1,
                Err(e) => r == Err::<(usize, usize), Error>(e),
            }
        }),
{
    let arch = match find_cputype(arches, MACH_CPU_TYPE_X86) {
        Some(a) => Some(a),
        None => find_cputype(arches, MACH_CPU_TYPE_X86_64),
    };
    match arch {
        Some(a) => {
            if a.offset >= len as u64 {
                return Err(Error::MachFatNoX86);
            }
            let end = match a.offset.checked_add(a.size) {
                Some(e) => e,
                None => {
                    return Err(Error::MachFatNoX86);
                },
            };
            if end > len as u64 {
                return Err(Error::MachFatNoX86);
            }
            Ok((a.offset as usize, end as usize))
        },
        None => Err(Error::MachFatNoX86),
    }
}

/// The export map an ELF symbol table yields: entries with a zero value
/// or with no name (or an empty one) are skipped; the rest bind name to
/// value.
pub open spec fn spec_elf_exports(symbols: Seq<SymbolInfo>) -> Map<Seq<char>, u64>
    decreases symbols.len(),
{
    if symbols.len() == 0 {
        Map::empty()
    } else {
        let rest = spec_elf_exports(symbols.drop_last());
        let s = symbols.last();
        if s.value == 0 {
            rest
        } else {
            match s.name {
                Some(name) => if name@.len() == 0 {
                    rest
                } else {
                    rest.insert(name@, s.value)
                },
                None => rest,
            }
        }
    }
}

/// Builds the export map of an ELF symbol table (see
/// `spec_elf_exports`).
pub fn elf_exports(symbols: &Vec<SymbolInfo>) -> (r: ExportMap)
    ensures
        r@ == spec_elf_exports(symbols@),
{
    let mut out = ExportMap::new();
    let n = symbols.len();
    let mut i: usize = 0;
    while i < n
        invariant
            i <= n,
            n == symbols@.len(),
            out@ == spec_elf_exports(symbols@.take(i as int)),
        decreases n - i,
    {
        proof {
            assert(symbols@.take((i + 1) as int).drop_last() =~= symbols@.take(i as int));
        }
        let s = &symbols[i];
        if s.value != 0 {
            match &s.name {
                Some(name) => {
                    if name.as_str().unicode_len() != 0 {
                        out.insert(name.clone(), s.value);
                    }
                },
                None => {},
            }
        }
        i += 1;
    }
    proof {
        assert(symbols@.take(n as int) =~= symbols@);
    }
    out
}

/// The export map a PE export directory yields: unnamed entries are
/// skipped; the rest bind name to relative virtual address.
pub open spec fn spec_pe_exports(exports: Seq<PeExportInfo>) -> Map<Seq<char>, u64>
    decreases exports.len(),
{
    if exports.len() == 0 {
        Map::empty()
    } else {
        let rest = spec_pe_exports(exports.drop_last());
        let e = exports.last();
        match e.name {
            Some(name) => rest.insert(name@, e.rva),
            None => rest,
        }
    }
}

/// Builds the export map of a PE export directory (see
/// `spec_pe_exports`).
pub fn pe_exports(exports: &Vec<PeExportInfo>) -> (r: ExportMap)
    ensures
        r@ == spec_pe_exports(exports@),
{
    let mut out = ExportMap::new();
    let n = exports.len();
    let mut i: usize = 0;
    while i < n
        invariant
            i <= n,
            n == exports@.len(),
            out@ == spec_pe_exports(exports@.take(i as int)),
        decreases n - i,
    {
        proof {
            assert(exports@.take((i + 1) as int).drop_last() =~= exports@.take(i as int));
        }
        let e = &exports[i];
        match &e.name {
            Some(name) => {
                out.insert(name.clone(), e.rva);
            },
            None => {},
        }
        i += 1;
    }
    proof {
        assert(exports@.take(n as int) =~= exports@);
    }
    out
}

/// The export map Mach-O export records yield: only regular exports are
/// taken, binding name to address.
pub open spec fn spec_mach_exports(exports: Seq<MachExportInfo>) -> Map<Seq<char>, u64>
    decreases exports.len(),
{
    if exports.len() == 0 {
        Map::empty()
    } else {
        let rest = spec_mach_exports(exports.drop_last());
        let e = exports.last();
        if e.regular {
            rest.insert(e.name@, e.address)
        } else {
            rest
        }
    }
}

/// Builds the export map of Mach-O export records (see
/// `spec_mach_exports`).
pub fn mach_exports(exports: &Vec<MachExportInfo>) -> (r: ExportMap)
    ensures
        r@ == spec_mach_exports(exports@),
{
    let mut out = ExportMap::new();
    let n = exports.len();
    let mut i: usize = 0;
    while i < n
        invariant
            i <= n,
            n == exports@.len(),
            out@ == spec_mach_exports(exports@.take(i as int)),
        decreases n - i,
    {
        proof {
            assert(exports@.take((i + 1) as int).drop_last() =~= exports@.take(i as int));
        }
        let e = &exports[i];
        if e.regular {
            out.insert(e.name.clone(), e.address);
        }
        i += 1;
    }
    proof {
        assert(exports@.take(n as int) =~= exports@);
    }
    out
}

/// What loading decides for `bytes`, with `nesting` fat layers still
/// allowed: either the slice to run and the decoder placement for its
/// entry point, or the exact error.  Formats are tried in order — ELF,
/// PE, thin Mach-O, fat Mach-O (which recurses into its x86 slice) —
/// then a parser failure passes through as `Goblin`, and anything else
/// is an unimplemented format.
pub open spec fn spec_entry_outcome(bytes: Seq<u8>, nesting: nat) -> Result<
    (Seq<u8>, EntryPlan),
    Error,
>
    decreases nesting,
{
    if nesting == 0 {
        Err(Error::MachFatNoX86)
    } else if elf_image_of(bytes) is Some {
        let img = elf_image_of(bytes).unwrap();
        match spec_elf_load_base(img.2) {
            Some(base) => Ok(
                (
                    bytes,
                    EntryPlan {
                        bitness: if img.0 {
                            64u32
                        } else {
                            32u32
                        },
                        decoder_ip: base,
                        entry_offset: if img.1 >= base {
                            (img.1 - base) as u64
                        } else {
                            0u64
                        },
                        entry_ip: img.1,
                    },
                ),
            ),
            None => Err(Error::ElfLoadHeaderMissing),
        }
    } else if pe_image_of(bytes) is Some {
        let img = pe_image_of(bytes).unwrap();
        match img.optional {
            Some(oh) => Ok(
                (
                    bytes,
                    EntryPlan {
                        bitness: if img.is_64 {
                            64u32
                        } else {
                            32u32
                        },
                        decoder_ip: oh.entry_rva,
                        entry_offset: if oh.entry_rva >= oh.image_base {
                            (oh.entry_rva - oh.image_base) as u64
                        } else {
                            0u64
                        },
                        entry_ip: oh.entry_rva,
                    },
                ),
            ),
            None => Err(Error::PeOptionalHeaderMissing),
        }
    } else if mach_image_of(bytes) is Some {
        let img = mach_image_of(bytes).unwrap();
        match img.main_entryoff {
            Some(entryoff) => Ok(
                (
                    bytes,
                    EntryPlan {
                        bitness: if img.is_64 {
                            64u32
                        } else {
                            32u32
                        },
                        decoder_ip: img.entry,
                        entry_offset: entryoff,
                        entry_ip: img.entry,
                    },
                ),
            ),
            None => Err(Error::MachOLoadCommandMissing),
        }
    } else if fat_arches_of(bytes) is Some {
        match spec_fat_slice(fat_arches_of(bytes).unwrap(), bytes.len()) {
            Ok(bounds) => spec_entry_outcome(
                bytes.subrange(bounds.0, bounds.1),
                (nesting - 1) as nat,
            ),
            Err(e) => Err(e),
        }
    } else if parse_error_of(bytes) is Some {
        Err(Error::Goblin(parse_error_of(bytes).unwrap()))
    } else {
        Err(Error::UnimplementedBinaryFileFormat)
    }
}

/// What export resolution decides for `bytes`, with `nesting` fat layers
/// still allowed: the export map, or the exact error.  Same format order
/// and fat-slice rules as `spec_entry_outcome`; the per-format filters
/// are `spec_elf_exports`, `spec_pe_exports` and `spec_mach_exports`.
pub open spec fn spec_exports_outcome(bytes: Seq<u8>, nesting: nat) -> Result<
    Map<Seq<char>, u64>,
    Error,
>
    decreases nesting,
{
    if nesting == 0 {
        Err(Error::MachFatNoX86)
    } else if elf_symbols_of(bytes) is Some {
        Ok(spec_elf_exports(elf_symbols_of(bytes).unwrap()))
    } else if pe_exports_of(bytes) is Some {
        Ok(spec_pe_exports(pe_exports_of(bytes).unwrap()))
    } else if mach_exports_of(bytes) is Some {
        match mach_exports_of(bytes).unwrap() {
            Ok(records) => Ok(spec_mach_exports(records)),
            Err(message) => Err(Error::Goblin(message)),
        }
    } else if fat_arches_of(bytes) is Some {
        match spec_fat_slice(fat_arches_of(bytes).unwrap(), bytes.len()) {
            Ok(bounds) => spec_exports_outcome(
                bytes.subrange(bounds.0, bounds.1),
                (nesting - 1) as nat,
            ),
            Err(e) => Err(e),
        }
    } else if parse_error_of(bytes) is Some {
        Err(Error::Goblin(parse_error_of(bytes).unwrap()))
    } else {
        Err(Error::UnimplementedBinaryFileFormat)
    }
}

} // verus!

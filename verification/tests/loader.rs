use stack_emulator::program::error::Error;
use stack_emulator::program::exports::ExportMap;
use stack_emulator::program::{execute_from_binary_slice, get_exports_from_binary_slice};

/// A minimal ELF64 with a symbol table: a null symbol plus the given
/// (name, value) entries.  No program headers.
fn elf64_with_symbols(symbols: &[(&str, u64)]) -> Vec<u8> {
    // string table: leading NUL, then each name NUL-terminated
    let mut strtab = vec![0u8];
    let mut name_offsets = Vec::new();
    for (name, _) in symbols {
        name_offsets.push(strtab.len() as u32);
        strtab.extend_from_slice(name.as_bytes());
        strtab.push(0);
    }
    // symbol table: null entry plus one 24-byte entry per symbol
    let mut symtab = vec![0u8; 24];
    for (i, (_, value)) in symbols.iter().enumerate() {
        symtab.extend_from_slice(&name_offsets[i].to_le_bytes()); // st_name
        symtab.push(0x12); // st_info: GLOBAL FUNC
        symtab.push(0); // st_other
        symtab.extend_from_slice(&1u16.to_le_bytes()); // st_shndx
        symtab.extend_from_slice(&value.to_le_bytes()); // st_value
        symtab.extend_from_slice(&0u64.to_le_bytes()); // st_size
    }
    let shstrtab: &[u8] = b"\0.symtab\0.strtab\0.shstrtab\0";

    let shdrs_off = 64u64;
    let symtab_off = shdrs_off + 4 * 64;
    let strtab_off = symtab_off + symtab.len() as u64;
    let shstrtab_off = strtab_off + strtab.len() as u64;

    let mut b = Vec::new();
    b.extend_from_slice(&[0x7F, b'E', b'L', b'F', 2, 1, 1, 0, 0, 0, 0, 0, 0, 0, 0, 0]);
    b.extend_from_slice(&2u16.to_le_bytes()); // e_type
    b.extend_from_slice(&0x3Eu16.to_le_bytes()); // e_machine
    b.extend_from_slice(&1u32.to_le_bytes()); // e_version
    b.extend_from_slice(&0u64.to_le_bytes()); // e_entry
    b.extend_from_slice(&0u64.to_le_bytes()); // e_phoff
    b.extend_from_slice(&shdrs_off.to_le_bytes()); // e_shoff
    b.extend_from_slice(&0u32.to_le_bytes()); // e_flags
    b.extend_from_slice(&64u16.to_le_bytes()); // e_ehsize
    b.extend_from_slice(&56u16.to_le_bytes()); // e_phentsize
    b.extend_from_slice(&0u16.to_le_bytes()); // e_phnum
    b.extend_from_slice(&64u16.to_le_bytes()); // e_shentsize
    b.extend_from_slice(&4u16.to_le_bytes()); // e_shnum
    b.extend_from_slice(&3u16.to_le_bytes()); // e_shstrndx
    assert_eq!(b.len(), 64);

    let shdr = |name: u32, ty: u32, off: u64, size: u64, link: u32, entsize: u64| {
        let mut s = Vec::new();
        s.extend_from_slice(&name.to_le_bytes());
        s.extend_from_slice(&ty.to_le_bytes());
        s.extend_from_slice(&0u64.to_le_bytes()); // sh_flags
        s.extend_from_slice(&0u64.to_le_bytes()); // sh_addr
        s.extend_from_slice(&off.to_le_bytes());
        s.extend_from_slice(&size.to_le_bytes());
        s.extend_from_slice(&link.to_le_bytes());
        s.extend_from_slice(&0u32.to_le_bytes()); // sh_info
        s.extend_from_slice(&1u64.to_le_bytes()); // sh_addralign
        s.extend_from_slice(&entsize.to_le_bytes());
        s
    };
    b.extend_from_slice(&shdr(0, 0, 0, 0, 0, 0)); // null section
    b.extend_from_slice(&shdr(1, 2, symtab_off, symtab.len() as u64, 2, 24)); // .symtab
    b.extend_from_slice(&shdr(9, 3, strtab_off, strtab.len() as u64, 0, 0)); // .strtab
    b.extend_from_slice(&shdr(17, 3, shstrtab_off, shstrtab.len() as u64, 0, 0)); // .shstrtab
    b.extend_from_slice(&symtab);
    b.extend_from_slice(&strtab);
    b.extend_from_slice(shstrtab);
    b
}

/// A fat Mach-O container whose slice table holds the given
/// (cputype, offset, size) entries; big-endian fields, as the format
/// prescribes.
fn fat_macho(arches: &[(u32, u32, u32)]) -> Vec<u8> {
    let mut b = Vec::new();
    b.extend_from_slice(&0xCAFE_BABEu32.to_be_bytes());
    b.extend_from_slice(&(arches.len() as u32).to_be_bytes());
    for (cputype, offset, size) in arches {
        b.extend_from_slice(&cputype.to_be_bytes());
        b.extend_from_slice(&0u32.to_be_bytes()); // cpusubtype
        b.extend_from_slice(&offset.to_be_bytes());
        b.extend_from_slice(&size.to_be_bytes());
        b.extend_from_slice(&0u32.to_be_bytes()); // align
    }
    b
}

/// A minimal thin 64-bit Mach-O: a bare header with no load commands.
fn thin_macho_no_commands() -> Vec<u8> {
    let mut b = Vec::new();
    b.extend_from_slice(&0xFEED_FACFu32.to_le_bytes()); // 64-bit magic
    b.extend_from_slice(&0x0100_0007u32.to_le_bytes()); // cputype x86-64
    b.extend_from_slice(&3u32.to_le_bytes()); // cpusubtype
    b.extend_from_slice(&2u32.to_le_bytes()); // filetype MH_EXECUTE
    b.extend_from_slice(&0u32.to_le_bytes()); // ncmds
    b.extend_from_slice(&0u32.to_le_bytes()); // sizeofcmds
    b.extend_from_slice(&0u32.to_le_bytes()); // flags
    b.extend_from_slice(&0u32.to_le_bytes()); // reserved
    b
}

#[test]
fn elf_exports_skip_zero_values_and_empty_names() {
    let binary = elf64_with_symbols(&[
        ("win_function", 0x40_1000),
        ("", 0x1234),
        ("discarded", 0),
        ("other", 0x40_2000),
    ]);
    let exports = get_exports_from_binary_slice(&binary).unwrap();
    assert_eq!(exports.get("win_function"), Some(0x40_1000));
    assert_eq!(exports.get("other"), Some(0x40_2000));
    assert_eq!(exports.get(""), None);
    assert_eq!(exports.get("discarded"), None);
    assert_eq!(exports.get("absent"), None);
    assert!(!exports.is_empty());
}

#[test]
fn binary_without_symbols_yields_empty_export_map() {
    let binary = elf64_with_symbols(&[]);
    let exports = get_exports_from_binary_slice(&binary).unwrap();
    assert!(exports.is_empty());
    assert_eq!(exports.get("win_function"), None);
}

#[test]
fn binary_with_only_skipped_symbols_yields_empty_export_map() {
    let binary = elf64_with_symbols(&[("", 7), ("zeroed", 0)]);
    let exports = get_exports_from_binary_slice(&binary).unwrap();
    assert!(exports.is_empty());
}

#[test]
fn fat_macho_without_x86_slice_fails_everywhere() {
    // CPU type 12 is ARM; no x86 slice exists
    let binary = fat_macho(&[(12, 0x40, 0x10)]);
    assert_eq!(execute_from_binary_slice(&binary), Err(Error::MachFatNoX86));
    assert_eq!(
        get_exports_from_binary_slice(&binary).unwrap_err(),
        Error::MachFatNoX86
    );
}

#[test]
fn fat_macho_with_out_of_bounds_x86_slice_fails() {
    // an x86 slice pointing past the end of the container
    let binary = fat_macho(&[(7, 0x4000, 0x10)]);
    assert_eq!(execute_from_binary_slice(&binary), Err(Error::MachFatNoX86));
    assert_eq!(
        get_exports_from_binary_slice(&binary).unwrap_err(),
        Error::MachFatNoX86
    );
}

#[test]
fn thin_macho_without_main_command_fails() {
    let binary = thin_macho_no_commands();
    assert_eq!(
        execute_from_binary_slice(&binary),
        Err(Error::MachOLoadCommandMissing)
    );
}

#[test]
fn elf_without_load_segment_fails() {
    // the symbols-only image has no program headers at all
    let binary = elf64_with_symbols(&[("win_function", 1)]);
    assert_eq!(
        execute_from_binary_slice(&binary),
        Err(Error::ElfLoadHeaderMissing)
    );
}

#[test]
fn unknown_format_is_rejected() {
    let binary = vec![0u8; 64];
    assert_eq!(
        execute_from_binary_slice(&binary),
        Err(Error::UnimplementedBinaryFileFormat)
    );
    assert_eq!(
        get_exports_from_binary_slice(&binary).unwrap_err(),
        Error::UnimplementedBinaryFileFormat
    );
}

#[test]
fn unparseable_input_reports_the_parser_error() {
    let binary = vec![0x7F, b'E'];
    assert!(matches!(
        execute_from_binary_slice(&binary),
        Err(Error::Goblin(_))
    ));
    assert!(matches!(
        get_exports_from_binary_slice(&binary),
        Err(Error::Goblin(_))
    ));
}

#[test]
fn export_map_insert_replaces_earlier_binding() {
    let mut map = ExportMap::new();
    assert!(map.is_empty());
    map.insert(String::from("f"), 1);
    map.insert(String::from("g"), 2);
    map.insert(String::from("f"), 3);
    assert_eq!(map.get("f"), Some(3));
    assert_eq!(map.get("g"), Some(2));
    assert_eq!(map.get("h"), None);
    assert!(!map.is_empty());
}

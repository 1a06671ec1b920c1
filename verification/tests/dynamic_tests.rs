use plt_rs::dynamic::{find_entry, find_value};
use plt_rs::elf32;
use plt_rs::elf64;
use plt_rs::{
    DynamicDigest, DynamicError, DynamicLibrary, DynamicSection, DynamicSectionType,
    DynamicSymbols, ElfClass, ElfDyn, ElfPhdr, ElfRel, ElfRela, LoadedLibrary, Machine, PltDigest,
    ProcessMemory, RelocationDigest, RelocationRef, Segment, StringTableView, SymbolDigest, Target,
};

const BASE: u64 = 0x7f12_3456_0000;
const DYNAMIC: u64 = 0x100;
const STRTAB: u64 = 0x300;
const SYMTAB: u64 = 0x400;
const REL: u64 = 0x500;
const RELA: u64 = 0x600;
const JMPREL: u64 = 0x700;
const GOT: u64 = 0x800;
const STRINGS: &[u8] = b"\0getpid\0puts\0free\0read";

fn put(bytes: &mut [u8], at: u64, value: u64, width: usize) {
    for i in 0..width {
        bytes[at as usize + i] = (value >> (8 * i)) as u8;
    }
}

/// A 64-bit image with the given dynamic entries, a string table, four
/// symbols, and room for the relocation tables.
fn image64(entries: &[(u64, u64)]) -> Vec<u8> {
    let mut bytes = vec![0u8; 0x1000];
    for (i, (tag, value)) in entries.iter().enumerate() {
        put(&mut bytes, DYNAMIC + 16 * i as u64, *tag, 8);
        put(&mut bytes, DYNAMIC + 16 * i as u64 + 8, *value, 8);
    }
    bytes[STRTAB as usize..STRTAB as usize + STRINGS.len()].copy_from_slice(STRINGS);
    for (i, name) in [0u64, 1, 8, 13, 18].iter().enumerate() {
        put(&mut bytes, SYMTAB + 24 * i as u64, *name, 4);
    }
    bytes
}

fn rela64(bytes: &mut [u8], table: u64, index: u64, r_offset: u64, sym: u64, kind: u64) {
    put(bytes, table + 24 * index, r_offset, 8);
    put(bytes, table + 24 * index + 8, (sym << 32) | kind, 8);
}

fn rel64(bytes: &mut [u8], table: u64, index: u64, r_offset: u64, sym: u64, kind: u64) {
    put(bytes, table + 16 * index, r_offset, 8);
    put(bytes, table + 16 * index + 8, (sym << 32) | kind, 8);
}

fn memory64(bytes: Vec<u8>) -> ProcessMemory {
    ProcessMemory {
        target: Target { class: ElfClass::Elf64, machine: Machine::X86 },
        segments: vec![Segment { start: BASE, bytes }],
    }
}

fn header64(p_type: u32, p_vaddr: u64, p_memsz: u64) -> ElfPhdr {
    ElfPhdr::Elf64(elf64::ProgramHeader {
        p_type,
        p_flags: 4,
        p_offset: p_vaddr,
        p_vaddr,
        p_paddr: p_vaddr,
        p_filesz: p_memsz,
        p_memsz,
        p_align: 8,
    })
}

fn library64() -> LoadedLibrary {
    LoadedLibrary {
        addr: BASE,
        name: String::from("/usr/lib/libdemo.so"),
        program_headers: vec![header64(6, 0x40, 0x1c0), header64(1, 0, 0x1000), header64(2, DYNAMIC, 0x200)],
    }
}

/// The entries of an object whose pointers are offsets from the base.
fn usual_entries() -> Vec<(u64, u64)> {
    vec![
        (1, 0x1234),
        (5, STRTAB),
        (10, STRINGS.len() as u64),
        (6, SYMTAB),
        (11, 24),
        (7, RELA),
        (8, 48),
        (9, 24),
        (23, JMPREL),
        (2, 72),
        (20, 7),
        (0, 0),
        (5, 0xdead),
    ]
}

fn open_error(entries: &[(u64, u64)]) -> DynamicError {
    let memory = memory64(image64(entries));
    match DynamicLibrary::initialize(library64(), &memory) {
        Ok(_) => panic!("the object opened"),
        Err(e) => e,
    }
}

fn without(tag: u64) -> Vec<(u64, u64)> {
    usual_entries().into_iter().filter(|(t, _)| *t != tag).collect()
}

fn with(tag: u64, value: u64) -> Vec<(u64, u64)> {
    usual_entries().into_iter().map(|(t, v)| if t == tag { (t, value) } else { (t, v) }).collect()
}

fn before(extra: &[(u64, u64)]) -> Vec<(u64, u64)> {
    let mut all = extra.to_vec();
    all.extend(usual_entries());
    all
}

#[test]
fn memory_is_read_inside_one_segment() {
    let memory = ProcessMemory {
        target: Target { class: ElfClass::Elf64, machine: Machine::X86 },
        segments: vec![
            Segment { start: 0x1000, bytes: vec![1, 2, 3, 4] },
            Segment { start: 0x1004, bytes: vec![5, 6, 7, 8] },
            Segment { start: 0x1002, bytes: vec![30, 40, 50, 60, 70] },
        ],
    };
    assert_eq!(memory.read(0x1000, 4), Some(&[1u8, 2, 3, 4][..]));
    assert_eq!(memory.read(0x1001, 2), Some(&[2u8, 3][..]));
    assert_eq!(memory.read(0x1004, 4), Some(&[5u8, 6, 7, 8][..]));
    assert_eq!(memory.read(0x1003, 3), Some(&[40u8, 50, 60][..]));
    assert_eq!(memory.read(0x1002, 2), Some(&[3u8, 4][..]));
    assert_eq!(memory.read(0x1000, 5), None);
    assert_eq!(memory.read(0x0fff, 1), None);
    assert_eq!(memory.read(0x1008, 1), None);
    assert_eq!(memory.read(0x1007, 2), None);
    assert_eq!(memory.read(0x9999, 0), Some(&[][..]));
    assert_eq!(memory.read(u64::MAX, 2), None);
    assert_eq!(memory.read(0x1000, u64::MAX), None);
    assert_eq!(memory.class(), ElfClass::Elf64);
}

#[test]
fn c_strings_end_at_a_nul_or_with_their_segment() {
    let memory = ProcessMemory {
        target: Target { class: ElfClass::Elf64, machine: Machine::X86 },
        segments: vec![Segment { start: 0x2000, bytes: b"libc.so.6\0tail".to_vec() }],
    };
    assert_eq!(memory.read_c_string(0x2000), Some(&b"libc.so.6"[..]));
    assert_eq!(memory.read_c_string(0x2005), Some(&b"so.6"[..]));
    assert_eq!(memory.read_c_string(0x2009), Some(&b""[..]));
    assert_eq!(memory.read_c_string(0x200a), Some(&b"tail"[..]));
    assert_eq!(memory.read_c_string(0x200e), None);
    assert_eq!(memory.read_c_string(0x1fff), None);
}

#[test]
fn the_walk_ends_at_the_null_entry() {
    let memory = memory64(image64(&usual_entries()));
    let section = DynamicSection { memory: &memory, address: BASE + DYNAMIC };
    let entries = section.entries();
    assert_eq!(entries.len(), 11);
    assert_eq!(entries[0], ElfDyn::Elf64(elf64::DynEntry { d_tag: 1, d_val_ptr: 0x1234 }));
    assert_eq!(entries[10], ElfDyn::Elf64(elf64::DynEntry { d_tag: 20, d_val_ptr: 7 }));
    assert_eq!(find_value(&entries, DynamicSectionType::DT_STRTAB), Some(STRTAB));
    assert_eq!(find_value(&entries, DynamicSectionType::DT_PLTGOT), None);
    assert_eq!(find_entry(&entries, 8), Some(ElfDyn::Elf64(elf64::DynEntry { d_tag: 8, d_val_ptr: 48 })));
    assert_eq!(find_entry(&entries, 0), None);
}

#[test]
fn the_walk_ends_where_memory_ends() {
    let mut bytes = vec![0u8; 40];
    put(&mut bytes, 0, 5, 8);
    put(&mut bytes, 8, 0x300, 8);
    put(&mut bytes, 16, 10, 8);
    put(&mut bytes, 24, 0x20, 8);
    put(&mut bytes, 32, 6, 8);
    let memory = ProcessMemory {
        target: Target { class: ElfClass::Elf64, machine: Machine::X86 },
        segments: vec![Segment { start: u64::MAX - 39, bytes }],
    };
    let section = DynamicSection { memory: &memory, address: u64::MAX - 39 };
    assert_eq!(section.entries().len(), 2);
    let nowhere = DynamicSection { memory: &memory, address: 0x10 };
    assert!(nowhere.entries().is_empty());
    let last = DynamicSection { memory: &memory, address: u64::MAX - 15 };
    assert_eq!(last.entries(), vec![ElfDyn::Elf64(elf64::DynEntry { d_tag: 0x20, d_val_ptr: 6 })]);
}

#[test]
fn a_usual_object_is_digested() {
    let memory = memory64(image64(&usual_entries()));
    let lib = DynamicLibrary::initialize(library64(), &memory).expect("opens");
    assert_eq!(
        lib.digest(),
        DynamicDigest {
            strtab_ptr: BASE + STRTAB,
            strtab_size: STRINGS.len() as u64,
            symtab: Some(SymbolDigest { symtab_ptr: BASE + SYMTAB, syment_size: 24 }),
            rel: None,
            rela: Some(RelocationDigest { ptr: BASE + RELA, size: 48, entry_size: 24 }),
            plt: Some(PltDigest {
                jmprel_ptr: BASE + JMPREL,
                pltrelsz: 72,
                pltrel_type: DynamicSectionType::DT_RELA
            }),
        }
    );
    assert_eq!(lib.base_address(), BASE);
    assert_eq!(lib.library().name(), "/usr/lib/libdemo.so");
    assert_eq!(lib.library().program_headers().len(), 3);
    assert_eq!(lib.string_table().raw, STRINGS);
    assert_eq!(lib.string_table().total_size(), STRINGS.len());
    assert!(lib.relocs().is_none());
    assert_eq!(lib.addend_relocs().expect("rela").len(), 2);
    assert_eq!(lib.plt().expect("plt").len(), 3);
    assert_eq!(lib.plt_relas().expect("plt with addend").len(), 3);
    assert!(lib.plt_rels().is_none());
    assert_eq!(lib.symbols().expect("symbols").address, BASE + SYMTAB);
}

#[test]
fn pointers_that_the_loader_has_moved_are_left_as_they_are() {
    let entries: Vec<(u64, u64)> = usual_entries()
        .into_iter()
        .map(|(t, v)| if t == 5 || t == 6 || t == 7 || t == 23 { (t, BASE + v) } else { (t, v) })
        .collect();
    let moved = memory64(image64(&entries));
    let offsets = memory64(image64(&usual_entries()));
    let a = DynamicLibrary::initialize(library64(), &moved).expect("opens");
    let b = DynamicLibrary::initialize(library64(), &offsets).expect("opens");
    assert_eq!(a.digest(), b.digest());
}

#[test]
fn parsing_twice_gives_equal_digests() {
    let memory = memory64(image64(&usual_entries()));
    let a = DynamicLibrary::initialize(library64(), &memory).expect("opens");
    let b = DynamicLibrary::initialize(library64(), &memory).expect("opens");
    assert_eq!(a.digest(), b.digest());
    assert_eq!(a.string_table().raw, b.string_table().raw);
    assert_eq!(a.try_find_function("puts"), b.try_find_function("puts"));
    let broken = memory64(image64(&without(10)));
    let first = DynamicLibrary::initialize(library64(), &broken).err();
    let second = DynamicLibrary::initialize(library64(), &broken).err();
    assert_eq!(first, second);
    assert!(first.is_some());
}

#[test]
fn the_first_of_two_entries_with_one_tag_counts() {
    let memory = memory64(image64(&before(&[(10, 7)])));
    let lib = DynamicLibrary::initialize(library64(), &memory).expect("opens");
    assert_eq!(lib.digest().strtab_size, 7);
    assert_eq!(lib.string_table().raw, b"\0getpid");
}

#[test]
fn an_object_without_dynamic_header_is_refused() {
    let memory = memory64(image64(&usual_entries()));
    let lib = LoadedLibrary { addr: BASE, name: String::new(), program_headers: vec![header64(1, 0, 0x1000)] };
    assert_eq!(DynamicLibrary::initialize(lib, &memory).err(), Some(DynamicError::MissingProgramHeader));
    let none = LoadedLibrary { addr: BASE, name: String::new(), program_headers: vec![] };
    assert_eq!(DynamicLibrary::initialize(none, &memory).err(), Some(DynamicError::MissingProgramHeader));
}

#[test]
fn the_first_dynamic_header_is_taken() {
    let memory = memory64(image64(&usual_entries()));
    let lib = LoadedLibrary {
        addr: BASE,
        name: String::new(),
        program_headers: vec![header64(2, DYNAMIC, 0x100), header64(2, 0xf00, 0x100)],
    };
    assert_eq!(lib.dynamic_section(&memory).map(|s| s.address), Some(BASE + DYNAMIC));
    assert!(DynamicLibrary::initialize(lib, &memory).is_ok());
}

#[test]
fn a_missing_string_table_is_a_missing_required_section() {
    assert_eq!(open_error(&without(5)), DynamicError::MissingRequiredSection(DynamicSectionType::DT_STRTAB));
    assert_eq!(open_error(&without(10)), DynamicError::MissingRequiredSection(DynamicSectionType::DT_STRSZ));
    assert_eq!(open_error(&[]), DynamicError::MissingRequiredSection(DynamicSectionType::DT_STRTAB));
    assert_eq!(
        open_error(&[(0, 0), (5, STRTAB), (10, 4)]),
        DynamicError::MissingRequiredSection(DynamicSectionType::DT_STRTAB)
    );
}

#[test]
fn a_table_without_its_size_is_a_missing_dependent_section() {
    assert_eq!(
        open_error(&without(11)),
        DynamicError::MissingDependentSection(DynamicSectionType::DT_SYMTAB, DynamicSectionType::DT_SYMENT)
    );
    assert_eq!(
        open_error(&without(8)),
        DynamicError::MissingDependentSection(DynamicSectionType::DT_RELA, DynamicSectionType::DT_RELASZ)
    );
    assert_eq!(
        open_error(&without(9)),
        DynamicError::MissingDependentSection(DynamicSectionType::DT_RELA, DynamicSectionType::DT_RELAENT)
    );
    assert_eq!(
        open_error(&without(2)),
        DynamicError::MissingDependentSection(DynamicSectionType::DT_JMPREL, DynamicSectionType::DT_PLTRELSZ)
    );
    assert_eq!(
        open_error(&without(20)),
        DynamicError::MissingDependentSection(DynamicSectionType::DT_JMPREL, DynamicSectionType::DT_PLTREL)
    );
    assert_eq!(
        open_error(&before(&[(17, REL)])),
        DynamicError::MissingDependentSection(DynamicSectionType::DT_REL, DynamicSectionType::DT_RELSZ)
    );
    assert_eq!(
        open_error(&before(&[(17, REL), (18, 32)])),
        DynamicError::MissingDependentSection(DynamicSectionType::DT_REL, DynamicSectionType::DT_RELENT)
    );
}

#[test]
fn the_first_broken_rule_gives_the_error() {
    let entries: Vec<(u64, u64)> = without(11).into_iter().filter(|(t, _)| *t != 10 && *t != 20).collect();
    assert_eq!(open_error(&entries), DynamicError::MissingRequiredSection(DynamicSectionType::DT_STRSZ));
    let entries: Vec<(u64, u64)> = without(11).into_iter().filter(|(t, _)| *t != 20).collect();
    assert_eq!(
        open_error(&entries),
        DynamicError::MissingDependentSection(DynamicSectionType::DT_SYMTAB, DynamicSectionType::DT_SYMENT)
    );
}

#[test]
fn an_entry_size_other_than_the_record_is_refused() {
    assert_eq!(open_error(&with(11, 16)), DynamicError::EntrySize(DynamicSectionType::DT_SYMENT, 16));
    assert_eq!(open_error(&with(9, 16)), DynamicError::EntrySize(DynamicSectionType::DT_RELAENT, 16));
    assert_eq!(open_error(&with(9, 0)), DynamicError::EntrySize(DynamicSectionType::DT_RELAENT, 0));
    assert_eq!(
        open_error(&before(&[(17, REL), (18, 32), (19, 24)])),
        DynamicError::EntrySize(DynamicSectionType::DT_RELENT, 24)
    );
}

#[test]
fn a_plt_of_unknown_shape_is_refused() {
    assert_eq!(open_error(&with(20, 5)), DynamicError::UnknownDynamicTag(5));
    assert_eq!(open_error(&with(20, 0)), DynamicError::UnknownDynamicTag(0));
    assert_eq!(open_error(&with(20, 0x6000_0000)), DynamicError::UnknownDynamicTag(0x6000_0000));
}

#[test]
fn a_table_outside_the_memory_is_refused() {
    assert_eq!(open_error(&with(10, 0x4000)), DynamicError::Unmapped(DynamicSectionType::DT_STRTAB));
    assert_eq!(open_error(&with(5, 0x9999_0000_0000)), DynamicError::Unmapped(DynamicSectionType::DT_STRTAB));
    assert_eq!(open_error(&with(8, 24 * 0x1000)), DynamicError::Unmapped(DynamicSectionType::DT_RELA));
    assert_eq!(open_error(&with(23, 0xff0)), DynamicError::Unmapped(DynamicSectionType::DT_JMPREL));
    assert_eq!(
        open_error(&before(&[(17, 0xff8), (18, 32), (19, 16)])),
        DynamicError::Unmapped(DynamicSectionType::DT_REL)
    );
    assert_eq!(
        open_error(&with(10, u64::MAX)),
        DynamicError::Unmapped(DynamicSectionType::DT_STRTAB)
    );
}

#[test]
fn an_empty_table_needs_no_memory() {
    let entries: Vec<(u64, u64)> =
        with(8, 0).into_iter().map(|(t, v)| if t == 7 { (t, 0x9999_0000_0000) } else { (t, v) }).collect();
    let memory = memory64(image64(&entries));
    let lib = DynamicLibrary::initialize(library64(), &memory).expect("opens");
    assert_eq!(lib.addend_relocs().expect("rela").len(), 0);
    assert!(lib.addend_relocs().expect("rela").entries().is_empty());
}

#[test]
fn an_object_without_relocations_opens() {
    let memory = memory64(image64(&[(5, STRTAB), (10, 4), (0, 0)]));
    let lib = DynamicLibrary::initialize(library64(), &memory).expect("opens");
    assert!(lib.symbols().is_none());
    assert!(lib.relocs().is_none());
    assert!(lib.addend_relocs().is_none());
    assert!(lib.plt().is_none());
    assert_eq!(lib.try_find_function("getpid"), None);
    assert_eq!(lib.find_got_slot("getpid"), None);
}

#[test]
fn a_table_has_as_many_records_as_fit_its_size() {
    let mut bytes = image64(&with(8, 71));
    rela64(&mut bytes, RELA, 0, GOT, 1, 6);
    rela64(&mut bytes, RELA, 1, GOT + 8, 2, 6);
    rela64(&mut bytes, RELA, 2, GOT + 16, 3, 6);
    let memory = memory64(bytes);
    let lib = DynamicLibrary::initialize(library64(), &memory).expect("opens");
    let table = lib.addend_relocs().expect("rela");
    assert_eq!(table.raw.len(), 71);
    assert_eq!(table.len(), 2);
    assert_eq!(table.entries().len(), 2);
    let plt = lib.plt_relas().expect("plt");
    assert_eq!(plt.len() * 24, 72);
    assert_eq!(plt.raw.len(), 72);
    assert_eq!(
        table.get(1),
        ElfRela::Elf64(elf64::DynRela { r_offset: GOT + 8, r_info: (2 << 32) | 6, r_addend: 0 })
    );
    assert_eq!(table.entries()[0], table.get(0));
}

#[test]
fn the_string_table_gives_names_by_offset() {
    let table = StringTableView { raw: STRINGS };
    assert_eq!(table.get(1), Some(&b"getpid"[..]));
    assert_eq!(table.get(8), Some(&b"puts"[..]));
    assert_eq!(table.get(10), Some(&b"ts"[..]));
    assert_eq!(table.get(0), Some(&b""[..]));
    assert_eq!(table.get(18), Some(&b"read"[..]));
    assert_eq!(table.get(STRINGS.len() - 1), Some(&b"d"[..]));
    assert_eq!(table.get(STRINGS.len()), None);
    assert_eq!(table.get(usize::MAX), None);
    let empty = StringTableView { raw: b"" };
    assert_eq!(empty.get(0), None);
}

#[test]
fn every_name_lies_inside_the_string_table() {
    let table = StringTableView { raw: STRINGS };
    for offset in 0..STRINGS.len() + 2 {
        match table.get(offset) {
            Some(name) => {
                assert!(offset + name.len() <= STRINGS.len());
                assert_eq!(name, &STRINGS[offset..offset + name.len()]);
                assert!(!name.contains(&0));
            }
            None => assert!(offset >= STRINGS.len()),
        }
    }
}

#[test]
fn symbols_resolve_to_their_names() {
    let memory = memory64(image64(&usual_entries()));
    let symbols = DynamicSymbols { memory: &memory, address: BASE + SYMTAB };
    let strings = StringTableView { raw: STRINGS };
    assert_eq!(symbols.resolve_name(0, &strings), None);
    assert_eq!(symbols.resolve_name(1, &strings), Some(&b"getpid"[..]));
    assert_eq!(symbols.resolve_name(2, &strings), Some(&b"puts"[..]));
    assert_eq!(symbols.resolve_name(3, &strings), Some(&b"free"[..]));
    assert_eq!(symbols.resolve_name(4, &strings), Some(&b"read"[..]));
    assert_eq!(symbols.resolve_name(5, &strings), None);
    assert_eq!(symbols.resolve_name(0x1000, &strings), None);
    assert_eq!(symbols.resolve_name(usize::MAX, &strings), None);
    let short = StringTableView { raw: &STRINGS[..13] };
    assert_eq!(symbols.resolve_name(3, &short), None);
    assert_eq!(symbols.resolve_name(2, &short), Some(&b"puts"[..]));
    assert_eq!(symbols.get(2).map(|s| s.st_name()), Some(8));
    assert_eq!(symbols.get(0x1000), None);
    assert_eq!(plt_rs::tables::raw_query_name(1, &symbols, &strings), Some(&b"getpid"[..]));
    assert_eq!(plt_rs::tables::raw_query_name(0, &symbols, &strings), None);
}

#[test]
fn a_function_is_looked_for_in_the_relocations_and_then_in_the_plt() {
    let mut bytes = image64(&usual_entries());
    rela64(&mut bytes, RELA, 0, GOT, 3, 6);
    rela64(&mut bytes, RELA, 1, GOT + 8, 2, 1);
    rela64(&mut bytes, JMPREL, 0, GOT + 16, 2, 7);
    rela64(&mut bytes, JMPREL, 1, GOT + 24, 1, 7);
    rela64(&mut bytes, JMPREL, 2, GOT + 32, 1, 7);
    let memory = memory64(bytes);
    let lib = DynamicLibrary::initialize(library64(), &memory).expect("opens");
    let free = lib.try_find_function("free").expect("free");
    assert_eq!(free.r_offset(), GOT);
    assert_eq!(free.symbol_index(), 3);
    assert_eq!(free.symbol_type(), 6);
    let puts = lib.try_find_function("puts").expect("puts");
    assert_eq!(puts.r_offset(), GOT + 8);
    assert_eq!(puts.symbol_type(), 1);
    let getpid = lib.try_find_function("getpid").expect("getpid");
    assert_eq!(getpid.r_offset(), GOT + 24);
    assert!(matches!(getpid, RelocationRef::WithAddend(_)));
    assert_eq!(lib.try_find_function("read"), None);
    assert_eq!(lib.try_find_function("getpi"), None);
    assert_eq!(lib.try_find_function("getpid\0"), None);
    assert_eq!(lib.try_find_function(""), None);
    assert_eq!(lib.find_got_slot("getpid"), Some(BASE + GOT + 24));
    assert_eq!(lib.find_got_slot("free"), Some(BASE + GOT));
    assert_eq!(lib.find_got_slot("read"), None);
}

#[test]
fn a_plt_without_addend_is_not_searched_at_64_bits() {
    let mut bytes = image64(&with(20, 17));
    rel64(&mut bytes, JMPREL, 0, GOT, 1, 7);
    let memory = memory64(bytes);
    let lib = DynamicLibrary::initialize(library64(), &memory).expect("opens");
    assert_eq!(lib.digest().plt.map(|p| p.pltrel_type), Some(DynamicSectionType::DT_REL));
    let plt = lib.plt_rels().expect("plt without addend");
    assert_eq!(plt.len(), 4);
    assert_eq!(plt.get(0), ElfRel::Elf64(elf64::DynRel { r_offset: GOT, r_info: (1 << 32) | 7 }));
    assert!(lib.plt_relas().is_none());
    assert_eq!(lib.try_find_function("getpid"), None);
}

const BASE32: u64 = 0xf7c0_0000;

fn image32(entries: &[(u32, u32)]) -> Vec<u8> {
    let mut bytes = vec![0u8; 0x1000];
    for (i, (tag, value)) in entries.iter().enumerate() {
        put(&mut bytes, DYNAMIC + 8 * i as u64, *tag as u64, 4);
        put(&mut bytes, DYNAMIC + 8 * i as u64 + 4, *value as u64, 4);
    }
    bytes[STRTAB as usize..STRTAB as usize + STRINGS.len()].copy_from_slice(STRINGS);
    for (i, name) in [0u64, 1, 8, 13, 18].iter().enumerate() {
        put(&mut bytes, SYMTAB + 16 * i as u64, *name, 4);
    }
    bytes
}

fn rel32(bytes: &mut [u8], table: u64, index: u64, r_offset: u64, sym: u64, kind: u64) {
    put(bytes, table + 8 * index, r_offset, 4);
    put(bytes, table + 8 * index + 4, (sym << 8) | kind, 4);
}

fn memory32(bytes: Vec<u8>) -> ProcessMemory {
    ProcessMemory {
        target: Target { class: ElfClass::Elf32, machine: Machine::Arm },
        segments: vec![Segment { start: BASE32, bytes }],
    }
}

fn library32() -> LoadedLibrary {
    LoadedLibrary {
        addr: BASE32,
        name: String::from("libdemo.so"),
        program_headers: vec![ElfPhdr::Elf32(elf32::ProgramHeader {
            p_type: 2,
            p_offset: DYNAMIC as u32,
            p_vaddr: DYNAMIC as u32,
            p_paddr: DYNAMIC as u32,
            p_filesz: 0x100,
            p_memsz: 0x100,
            p_flags: 6,
            p_align: 4,
        })],
    }
}

#[test]
fn a_32_bit_object_is_searched_in_its_tables_without_addend() {
    let entries = [
        (5u32, STRTAB as u32),
        (10, STRINGS.len() as u32),
        (6, SYMTAB as u32),
        (11, 16),
        (17, REL as u32),
        (18, 16),
        (19, 8),
        (23, JMPREL as u32),
        (2, 16),
        (20, 17),
        (0, 0),
    ];
    let mut bytes = image32(&entries);
    rel32(&mut bytes, REL, 0, GOT, 3, 21);
    rel32(&mut bytes, REL, 1, GOT + 4, 4, 21);
    rel32(&mut bytes, JMPREL, 0, GOT + 8, 1, 22);
    rel32(&mut bytes, JMPREL, 1, GOT + 12, 2, 22);
    let memory = memory32(bytes);
    let lib = DynamicLibrary::initialize(library32(), &memory).expect("opens");
    assert_eq!(
        lib.digest(),
        DynamicDigest {
            strtab_ptr: BASE32 + STRTAB,
            strtab_size: STRINGS.len() as u64,
            symtab: Some(SymbolDigest { symtab_ptr: BASE32 + SYMTAB, syment_size: 16 }),
            rel: Some(RelocationDigest { ptr: BASE32 + REL, size: 16, entry_size: 8 }),
            rela: None,
            plt: Some(PltDigest {
                jmprel_ptr: BASE32 + JMPREL,
                pltrelsz: 16,
                pltrel_type: DynamicSectionType::DT_REL
            }),
        }
    );
    assert_eq!(lib.relocs().expect("rel").len(), 2);
    assert_eq!(
        lib.relocs().expect("rel").get(1),
        ElfRel::Elf32(elf32::DynRel { r_offset: (GOT + 4) as u32, r_info: (4 << 8) | 21 })
    );
    assert_eq!(lib.relocs().expect("rel").entries().len(), 2);
    let read = lib.try_find_function("read").expect("read");
    assert_eq!(read.r_offset(), GOT + 4);
    assert!(matches!(read, RelocationRef::WithoutAddend(_)));
    assert_eq!(lib.find_got_slot("puts"), Some(BASE32 + GOT + 12));
    assert_eq!(lib.find_got_slot("getpid"), Some(BASE32 + GOT + 8));
    assert_eq!(lib.find_got_slot("write"), None);
}

#[test]
fn a_32_bit_entry_size_is_checked_against_the_32_bit_record() {
    let entries = [(5u32, STRTAB as u32), (10, 4), (6, SYMTAB as u32), (11, 24), (0, 0)];
    let memory = memory32(image32(&entries));
    assert_eq!(
        DynamicLibrary::initialize(library32(), &memory).err(),
        Some(DynamicError::EntrySize(DynamicSectionType::DT_SYMENT, 24))
    );
    let entries = [(5u32, STRTAB as u32), (10, 4), (7, RELA as u32), (8, 24), (9, 12), (0, 0)];
    let memory = memory32(image32(&entries));
    let lib = DynamicLibrary::initialize(library32(), &memory).expect("opens");
    assert_eq!(lib.addend_relocs().expect("rela").len(), 2);
}

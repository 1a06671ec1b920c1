//! Symbol resolution that starts from a node of the loader's list of
//! objects.

use crate::bytes::bytes_eq;
use crate::dynamic::{
    digest_plt, digest_strings, digest_table, entries_from, find_entry, find_tag, spec_digest,
    spec_plt, spec_strings, spec_table, DynamicDigest, DynamicError, DynamicSection,
    DynamicSectionType, RelocationDigest,
};
use crate::library::{
    lemma_whole_records, spec_import, spec_mapped, table_model, DynamicTables,
};
use crate::memory::ProcessMemory;
use crate::patch::{PltError, PltResult};
use crate::tables::{
    model_of, DynamicAddendRelocations, DynamicRelocations, RelocationTable, StringTableView,
    TableModel,
};
use crate::unixy::{lemma_section_tag, ElfAddr, ElfClass, ElfDyn, LinkMap, SectionType};
use vstd::prelude::*;
use vstd::string::StringSliceAdditionalSpecFns;
use vstd::utf8::encode_utf8;

verus! {

/// The entries of the dynamic section that the node points to; none where it
/// points to nothing.
pub open spec fn link_map_entries(memory: &ProcessMemory, raw: LinkMap) -> Seq<ElfDyn> {
    if raw.l_ld == 0 {
        Seq::empty()
    } else {
        entries_from(memory, raw.l_ld as int)
    }
}

/// The first entry of the node's dynamic section that carries `tag`.
pub open spec fn link_map_section(memory: &ProcessMemory, raw: LinkMap, tag: SectionType) -> Option<
    ElfDyn,
> {
    find_tag(link_map_entries(memory, raw), tag.tag())
}

/// The bytes of the node's string table. `DT_STRTAB` and `DT_STRSZ` must both
/// be there, and the table must be readable where `DT_STRTAB` says: a value
/// that is not above the load bias is an offset from it, a larger one is an
/// address already.
pub open spec fn link_map_strings(memory: &ProcessMemory, raw: LinkMap) -> Result<
    Seq<u8>,
    PltError,
> {
    match spec_strings(link_map_entries(memory, raw), raw.l_addr, memory.target.class) {
        Err(e) => Err(PltError::spec_of_dynamic(e)),
        Ok(s) => if memory.readable(s.0 as int, s.1 as int) {
            Ok(memory.bytes_at(s.0 as int, s.1 as int))
        } else {
            Err(PltError::Dynamic(DynamicError::Unmapped(DynamicSectionType::DT_STRTAB)))
        },
    }
}

/// The tag that names the node's own relocations: at 64 bits `DT_RELA`, at
/// 32 bits `DT_REL`.
pub open spec fn rel_dyn_tag(class: ElfClass) -> DynamicSectionType {
    match class {
        ElfClass::Elf64 => DynamicSectionType::DT_RELA,
        ElfClass::Elf32 => DynamicSectionType::DT_REL,
    }
}

/// What the dynamic section says of the node's own relocations: at 64 bits
/// those with addend, from `DT_RELA`, `DT_RELASZ` and `DT_RELAENT`, at 32
/// bits those without, from `DT_REL`, `DT_RELSZ` and `DT_RELENT`. Where the
/// first tag is there, the other two must be, and the entry size must be
/// that of the record.
pub open spec fn link_map_rel_digest(memory: &ProcessMemory, raw: LinkMap) -> Result<
    Option<RelocationDigest>,
    DynamicError,
> {
    let class = memory.target.class;
    match class {
        ElfClass::Elf64 => spec_table(
            link_map_entries(memory, raw),
            raw.l_addr,
            class,
            DynamicSectionType::DT_RELA,
            DynamicSectionType::DT_RELASZ,
            DynamicSectionType::DT_RELAENT,
            class.spec_rela_size() as u64,
        ),
        ElfClass::Elf32 => spec_table(
            link_map_entries(memory, raw),
            raw.l_addr,
            class,
            DynamicSectionType::DT_REL,
            DynamicSectionType::DT_RELSZ,
            DynamicSectionType::DT_RELENT,
            class.spec_rel_size() as u64,
        ),
    }
}

/// The node's own relocations: none where the dynamic section does not name
/// them, an error where it names them and breaks a rule or the table cannot
/// be read.
pub open spec fn link_map_rel_dyn(memory: &ProcessMemory, raw: LinkMap) -> Result<
    Option<TableModel>,
    PltError,
> {
    let class = memory.target.class;
    match link_map_rel_digest(memory, raw) {
        Err(e) => Err(PltError::spec_of_dynamic(e)),
        Ok(None) => Ok(None),
        Ok(Some(t)) => if memory.readable(t.ptr as int, t.size as int) {
            Ok(Some(table_model(memory, t.ptr, t.size, class == ElfClass::Elf64)))
        } else {
            Err(PltError::Dynamic(DynamicError::Unmapped(rel_dyn_tag(class))))
        },
    }
}

/// The relocations of the node's procedure linkage table, in the shape that
/// `DT_PLTREL` names: none where the dynamic section has no `DT_JMPREL`, an
/// error where it has one and `DT_PLTRELSZ` or `DT_PLTREL` is not there,
/// where `DT_PLTREL` names neither shape, or where the table cannot be read.
pub open spec fn link_map_plt_dyn(memory: &ProcessMemory, raw: LinkMap) -> Result<
    Option<TableModel>,
    PltError,
> {
    match spec_plt(link_map_entries(memory, raw), raw.l_addr, memory.target.class) {
        Err(e) => Err(PltError::spec_of_dynamic(e)),
        Ok(None) => Ok(None),
        Ok(Some(p)) => if memory.readable(p.jmprel_ptr as int, p.pltrelsz as int) {
            Ok(
                Some(
                    table_model(
                        memory,
                        p.jmprel_ptr,
                        p.pltrelsz,
                        p.pltrel_type == DynamicSectionType::DT_RELA,
                    ),
                ),
            )
        } else {
            Err(PltError::Dynamic(DynamicError::Unmapped(DynamicSectionType::DT_JMPREL)))
        },
    }
}

/// The address of the slot through which calls of `name` go. The node must
/// have a symbol table, its dynamic section must digest, with the load bias
/// as the base, and the tables that it names must be readable. The slot is
/// that of the first relocation of type `R_GLOB_DAT` among the node's own
/// relocations that names a symbol called `name`, or else of the first of
/// type `R_JUMP_SLOT` in the procedure linkage table, where that has the
/// shape of the word width: its offset, moved by the load bias.
pub open spec fn link_map_symbol(memory: &ProcessMemory, raw: LinkMap, name: Seq<u8>) -> Result<
    Option<u64>,
    PltError,
> {
    let class = memory.target.class;
    if link_map_section(memory, raw, SectionType::DT_SYMTAB) is None {
        Err(PltError::Section(SectionType::DT_SYMTAB))
    } else {
        match spec_digest(link_map_entries(memory, raw), raw.l_addr, class) {
            Err(e) => Err(PltError::spec_of_dynamic(e)),
            Ok(d) => match spec_mapped(memory, d) {
                Err(e) => Err(PltError::spec_of_dynamic(e)),
                Ok(_) => match spec_import(
                    memory,
                    d,
                    name,
                    Some(
                        (memory.target.machine.spec_glob_dat(), memory.target.machine.spec_jump_slot()),
                    ),
                ) {
                    Some(e) => Ok(Some(class.spec_sum(raw.l_addr, e.spec_r_offset()))),
                    None => Ok(None),
                },
            },
        }
    }
}

/// A string table that is named and copied is read. Where `DT_STRTAB` and
/// `DT_STRSZ` are there and the memory holds the bytes at the address that
/// `DT_STRTAB` gives by the rule of the load bias, the string table is those
/// bytes, as many as `DT_STRSZ` says; reading it again gives the same.
pub proof fn lemma_link_map_strings(memory: &ProcessMemory, raw: LinkMap)
    requires
        link_map_section(memory, raw, SectionType::DT_STRTAB) is Some,
        link_map_section(memory, raw, SectionType::DT_STRSZ) is Some,
        memory.readable(
            crate::dynamic::spec_rebase(
                memory.target.class,
                link_map_section(memory, raw, SectionType::DT_STRTAB).unwrap().spec_d_val(),
                raw.l_addr,
            ) as int,
            link_map_section(memory, raw, SectionType::DT_STRSZ).unwrap().spec_d_val() as int,
        ),
    ensures
        ({
            let at = crate::dynamic::spec_rebase(
                memory.target.class,
                link_map_section(memory, raw, SectionType::DT_STRTAB).unwrap().spec_d_val(),
                raw.l_addr,
            );
            let size = link_map_section(memory, raw, SectionType::DT_STRSZ).unwrap().spec_d_val();
            &&& link_map_strings(memory, raw) == Ok::<Seq<u8>, PltError>(
                memory.bytes_at(at as int, size as int),
            )
            &&& memory.bytes_at(at as int, size as int).len() == size
        }),
{
    let at = crate::dynamic::spec_rebase(
        memory.target.class,
        link_map_section(memory, raw, SectionType::DT_STRTAB).unwrap().spec_d_val(),
        raw.l_addr,
    );
    let size = link_map_section(memory, raw, SectionType::DT_STRSZ).unwrap().spec_d_val();
    memory.lemma_bytes_len(at as int, size as int);
}

/// The place and the size of a node's relocation tables. A table that is
/// read starts where its tag says by the rule of the load bias, has as many
/// bytes as the dynamic section says and records of the size that it says,
/// in the shape that it names, and where the number of bytes is a multiple of
/// the size of a record, the number of records times the size of a record
/// gives it back.
pub proof fn lemma_link_map_table_sizing(memory: &ProcessMemory, raw: LinkMap)
    ensures
        link_map_rel_dyn(memory, raw) matches Ok(Some(m)) ==> {
            let t = link_map_rel_digest(memory, raw)->Ok_0->Some_0;
            &&& t.ptr == crate::dynamic::spec_rebase(
                memory.target.class,
                crate::dynamic::value_of(
                    link_map_entries(memory, raw),
                    rel_dyn_tag(memory.target.class),
                ).unwrap(),
                raw.l_addr,
            )
            &&& m.bytes == memory.bytes_at(t.ptr as int, t.size as int)
            &&& m.addend == (memory.target.class == ElfClass::Elf64)
            &&& m.bytes.len() == t.size
            &&& m.record_size() == t.entry_size
            &&& t.size as int % m.record_size() == 0 ==> m.len() * m.record_size() == t.size
        },
        link_map_plt_dyn(memory, raw) matches Ok(Some(m)) ==> {
            let p = spec_plt(link_map_entries(memory, raw), raw.l_addr, memory.target.class)->Ok_0->Some_0;
            &&& p.jmprel_ptr == crate::dynamic::spec_rebase(
                memory.target.class,
                crate::dynamic::value_of(
                    link_map_entries(memory, raw),
                    DynamicSectionType::DT_JMPREL,
                ).unwrap(),
                raw.l_addr,
            )
            &&& m.bytes == memory.bytes_at(p.jmprel_ptr as int, p.pltrelsz as int)
            &&& p.pltrel_type == DynamicSectionType::DT_REL || p.pltrel_type
                == DynamicSectionType::DT_RELA
            &&& m.addend == (p.pltrel_type == DynamicSectionType::DT_RELA)
            &&& m.bytes.len() == p.pltrelsz
            &&& p.pltrelsz as int % m.record_size() == 0 ==> m.len() * m.record_size()
                == p.pltrelsz
        },
{
    let class = memory.target.class;
    if link_map_rel_dyn(memory, raw) matches Ok(Some(m)) {
        let t = link_map_rel_digest(memory, raw)->Ok_0->Some_0;
        memory.lemma_bytes_len(t.ptr as int, t.size as int);
        lemma_whole_records(t.size as int, class.spec_rel_size() as int);
        lemma_whole_records(t.size as int, class.spec_rela_size() as int);
    }
    if link_map_plt_dyn(memory, raw) matches Ok(Some(m)) {
        let p = spec_plt(link_map_entries(memory, raw), raw.l_addr, class)->Ok_0->Some_0;
        memory.lemma_bytes_len(p.jmprel_ptr as int, p.pltrelsz as int);
        lemma_whole_records(p.pltrelsz as int, class.spec_rel_size() as int);
        lemma_whole_records(p.pltrelsz as int, class.spec_rela_size() as int);
    }
}

/// What stands for a loaded object by a node of the loader's list: the node
/// and the memory that it points into.
pub trait LinkMapBacked: Sized {
    spec fn spec_inner(&self) -> LinkMap;

    spec fn spec_dynamic_load_address(&self) -> ElfAddr;

    spec fn spec_memory(&self) -> &ProcessMemory;

    /// The node.
    fn inner(&self) -> (r: &LinkMap)
        ensures
            *r == self.spec_inner(),
    ;

    /// What the loader that made the node leaves to be added to the pointers
    /// of the dynamic section: 0 where it has moved the pointers already.
    /// The tables are found by the rule of the load bias, which holds for
    /// both kinds of loader.
    fn dynamic_load_address(&self) -> (r: ElfAddr)
        ensures
            r == self.spec_dynamic_load_address(),
    ;

    /// The memory that the node points into.
    fn memory(&self) -> (r: &ProcessMemory)
        ensures
            r == self.spec_memory(),
    ;

    /// The load bias of the object.
    fn load_address(&self) -> (r: ElfAddr)
        ensures
            r == self.spec_inner().l_addr,
    {
        self.inner().l_addr
    }

    /// The dynamic section of the object, where the node points to one.
    fn dynamic_section(&self) -> (r: Option<DynamicSection<'_>>)
        ensures
            match r {
                Some(s) => self.spec_inner().l_ld != 0 && s.memory == self.spec_memory()
                    && s.address == self.spec_inner().l_ld,
                None => self.spec_inner().l_ld == 0,
            },
    {
        let l_ld = self.inner().l_ld;
        if l_ld == 0 {
            None
        } else {
            Some(DynamicSection { memory: self.memory(), address: l_ld })
        }
    }

    /// Reads the entries of the object's dynamic section.
    fn entries(&self) -> (r: Vec<ElfDyn>)
        ensures
            r@ == link_map_entries(self.spec_memory(), self.spec_inner()),
    {
        match self.dynamic_section() {
            None => Vec::new(),
            Some(section) => section.entries(),
        }
    }

    /// Looks for the first entry of the dynamic section that carries `tag`.
    fn try_find_section(&self, tag: SectionType) -> (r: Option<ElfDyn>)
        ensures
            r == link_map_section(self.spec_memory(), self.spec_inner(), tag),
    {
        let entries = self.entries();
        proof {
            lemma_section_tag(tag);
        }
        find_entry(&entries, i64::from(tag))
    }

    /// Looks for the first entry of the dynamic section that carries `tag`,
    /// which must be there.
    fn find_section(&self, tag: SectionType) -> (r: PltResult<ElfDyn>)
        ensures
            r == match link_map_section(self.spec_memory(), self.spec_inner(), tag) {
                Some(e) => Ok::<ElfDyn, PltError>(e),
                None => Err::<ElfDyn, PltError>(PltError::Section(tag)),
            },
    {
        match self.try_find_section(tag) {
            Some(e) => Ok(e),
            None => Err(PltError::Section(tag)),
        }
    }

    /// The string table of the object.
    fn string_table(&self) -> (r: PltResult<StringTableView<'_>>)
        ensures
            match r {
                Ok(t) => link_map_strings(self.spec_memory(), self.spec_inner()) == Ok::<
                    Seq<u8>,
                    PltError,
                >(t.raw@),
                Err(e) => link_map_strings(self.spec_memory(), self.spec_inner()) == Err::<
                    Seq<u8>,
                    PltError,
                >(e),
            },
    {
        let entries = self.entries();
        let memory = self.memory();
        match digest_strings(&entries, self.load_address(), memory.class()) {
            Err(e) => Err(PltError::of_dynamic(e)),
            Ok(s) => match memory.read(s.0, s.1) {
                Some(raw) => Ok(StringTableView { raw }),
                None => Err(
                    PltError::Dynamic(DynamicError::Unmapped(DynamicSectionType::DT_STRTAB)),
                ),
            },
        }
    }

    /// The object's own relocations, where it has any.
    fn rel_dyn(&self) -> (r: PltResult<Option<RelocationTable<'_>>>)
        ensures
            match r {
                Ok(t) => link_map_rel_dyn(self.spec_memory(), self.spec_inner()) == Ok::<
                    Option<TableModel>,
                    PltError,
                >(model_of(t)),
                Err(e) => link_map_rel_dyn(self.spec_memory(), self.spec_inner()) == Err::<
                    Option<TableModel>,
                    PltError,
                >(e),
            },
    {
        let entries = self.entries();
        let memory = self.memory();
        let class = memory.class();
        let base = self.load_address();
        match class {
            ElfClass::Elf64 => match digest_table(
                &entries,
                base,
                class,
                DynamicSectionType::DT_RELA,
                DynamicSectionType::DT_RELASZ,
                DynamicSectionType::DT_RELAENT,
                class.rela_size() as u64,
            ) {
                Err(e) => Err(PltError::of_dynamic(e)),
                Ok(None) => Ok(None),
                Ok(Some(t)) => match memory.read(t.ptr, t.size) {
                    Some(raw) => Ok(
                        Some(RelocationTable::WithAddend(DynamicAddendRelocations { raw, class })),
                    ),
                    None => Err(
                        PltError::Dynamic(DynamicError::Unmapped(DynamicSectionType::DT_RELA)),
                    ),
                },
            },
            ElfClass::Elf32 => match digest_table(
                &entries,
                base,
                class,
                DynamicSectionType::DT_REL,
                DynamicSectionType::DT_RELSZ,
                DynamicSectionType::DT_RELENT,
                class.rel_size() as u64,
            ) {
                Err(e) => Err(PltError::of_dynamic(e)),
                Ok(None) => Ok(None),
                Ok(Some(t)) => match memory.read(t.ptr, t.size) {
                    Some(raw) => Ok(
                        Some(RelocationTable::WithoutAddend(DynamicRelocations { raw, class })),
                    ),
                    None => Err(
                        PltError::Dynamic(DynamicError::Unmapped(DynamicSectionType::DT_REL)),
                    ),
                },
            },
        }
    }

    /// The relocations of the object's procedure linkage table, where it has
    /// any, in the shape that `DT_PLTREL` names.
    fn plt_dyn(&self) -> (r: PltResult<Option<RelocationTable<'_>>>)
        ensures
            match r {
                Ok(t) => link_map_plt_dyn(self.spec_memory(), self.spec_inner()) == Ok::<
                    Option<TableModel>,
                    PltError,
                >(model_of(t)),
                Err(e) => link_map_plt_dyn(self.spec_memory(), self.spec_inner()) == Err::<
                    Option<TableModel>,
                    PltError,
                >(e),
            },
    {
        let entries = self.entries();
        let memory = self.memory();
        let class = memory.class();
        match digest_plt(&entries, self.load_address(), class) {
            Err(e) => Err(PltError::of_dynamic(e)),
            Ok(None) => Ok(None),
            Ok(Some(p)) => match memory.read(p.jmprel_ptr, p.pltrelsz) {
                None => Err(
                    PltError::Dynamic(DynamicError::Unmapped(DynamicSectionType::DT_JMPREL)),
                ),
                Some(raw) => match p.pltrel_type {
                    DynamicSectionType::DT_RELA => Ok(
                        Some(RelocationTable::WithAddend(DynamicAddendRelocations { raw, class })),
                    ),
                    _ => Ok(
                        Some(RelocationTable::WithoutAddend(DynamicRelocations { raw, class })),
                    ),
                },
            },
        }
    }

    /// Looks for the address of the slot through which calls of
    /// `symbol_name` go.
    fn find_symbol(&self, symbol_name: &str) -> (r: PltResult<Option<u64>>)
        ensures
            r == link_map_symbol(self.spec_memory(), self.spec_inner(), symbol_name.spec_bytes()),
    {
        match self.find_section(SectionType::DT_SYMTAB) {
            Err(e) => { return Err(e); },
            Ok(_) => {},
        }
        let entries = self.entries();
        let memory = self.memory();
        let class = memory.class();
        let base = self.load_address();
        let digest = match DynamicDigest::parse(&entries, base, class) {
            Err(e) => { return Err(PltError::of_dynamic(e)); },
            Ok(d) => d,
        };
        let tables = match DynamicTables::read(memory, digest) {
            Err(e) => { return Err(PltError::of_dynamic(e)); },
            Ok(t) => t,
        };
        let machine = memory.target.machine;
        let wanted = Some((machine.glob_dat(), machine.jump_slot()));
        proof {
            tables.lemma_find_import(memory, digest, symbol_name.spec_bytes(), wanted);
        }
        match tables.find_import(symbol_name.as_bytes(), wanted) {
            Some(entry) => Ok(Some(class.sum(base, entry.r_offset()))),
            None => Ok(None),
        }
    }
}

/// One mapping of the process: where it starts, how many bytes it takes, and
/// the file behind it, where there is one.
pub struct MapRange {
    pub start: u64,
    pub size: u64,
    pub filename: Option<String>,
}

impl MapRange {
    /// The mapping ends inside the address space.
    pub open spec fn in_address_space(&self) -> bool {
        self.start + self.size <= u64::MAX
    }

    /// Whether the mapping is backed by the file called `name`.
    pub open spec fn is_file(&self, name: Seq<u8>) -> bool {
        self.filename matches Some(f) && encode_utf8(f@) == name
    }
}

/// The first mapping at or after `from` that is backed by the file `name`.
pub open spec fn mapping_from(maps: Seq<MapRange>, name: Seq<u8>, from: int) -> Option<int>
    decreases maps.len() - from,
{
    if from < 0 || from >= maps.len() {
        None
    } else if maps[from].is_file(name) {
        Some(from)
    } else {
        mapping_from(maps, name, from + 1)
    }
}

/// An address inside the executable: the middle of the first mapping that is
/// backed by the executable's file.
pub open spec fn spec_executable_address(maps: Seq<MapRange>, name: Seq<u8>) -> Option<u64> {
    match mapping_from(maps, name, 0) {
        Some(i) => Some((maps[i].start + maps[i].size / 2) as u64),
        None => None,
    }
}

/// Looks for an address inside the executable, by which its node can be
/// asked for: the middle of the first mapping whose file is
/// `executable_name`.
pub fn executable_address(maps: &Vec<MapRange>, executable_name: &str) -> (r: Option<u64>)
    requires
        forall|i: int| 0 <= i < maps@.len() ==> (#[trigger] maps@[i]).in_address_space(),
    ensures
        r == spec_executable_address(maps@, executable_name.spec_bytes()),
{
    let name = executable_name.as_bytes();
    let mut i: usize = 0;
    while i < maps.len()
        invariant
            i <= maps@.len(),
            name@ == executable_name.spec_bytes(),
            forall|k: int| 0 <= k < maps@.len() ==> (#[trigger] maps@[k]).in_address_space(),
            mapping_from(maps@, name@, 0) == mapping_from(maps@, name@, i as int),
        decreases maps@.len() - i,
    {
        let m = &maps[i];
        let found = match &m.filename {
            Some(file_name) => bytes_eq(file_name.as_str().as_bytes(), name),
            None => false,
        };
        if found {
            return Some(m.start + m.size / 2);
        }
        i = i + 1;
    }
    None
}

} // verus!

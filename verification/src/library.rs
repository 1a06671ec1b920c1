//! A loaded object and the tables of its dynamic section.

use crate::android_view::{find_dynamic_section, spec_dynamic_address};
use crate::dynamic::{
    entries_from, spec_digest, DynamicDigest, DynamicError, DynamicSection, DynamicSectionType,
};
use crate::memory::ProcessMemory;
use crate::tables::{
    lemma_symbol_name_bounded, model_of, resolve, spec_resolve, symbol_at, symbol_name, DynamicAddendRelocations, DynamicRelocations, DynamicSymbols,
    RelocationRef, RelocationTable, StringTableView, TableModel,
};
use crate::unixy::{ElfClass, ElfPhdr, PF_R, PT_LOAD};
use vstd::prelude::*;
use vstd::string::StringSliceAdditionalSpecFns;

verus! {

/// An object that is mapped into the process: where it was placed, the path
/// that the loader used, and its program headers.
pub struct LoadedLibrary {
    pub addr: u64,
    pub name: String,
    pub program_headers: Vec<ElfPhdr>,
}

/// A run of addresses: where it starts and how many bytes it takes.
#[derive(Debug, Clone, Copy, PartialEq, Eq, Structural)]
pub struct MemoryRange {
    pub start: u64,
    pub len: u64,
}

impl LoadedLibrary {
    /// Whether the header is a loadable segment that may be read.
    pub open spec fn is_readable_segment(header: ElfPhdr) -> bool {
        header.spec_p_type() == PT_LOAD && header.spec_p_flags() & PF_R != 0
    }

    /// Where the segment of a header lies in an object loaded at `addr`.
    pub open spec fn range_of(addr: u64, header: ElfPhdr) -> MemoryRange {
        MemoryRange {
            start: header.spec_class().spec_sum(addr, header.spec_p_vaddr()),
            len: header.spec_p_memsz(),
        }
    }

    /// The ranges of the readable loadable segments among the first `n`
    /// program headers, in the order of the headers.
    pub open spec fn ranges_upto(&self, n: int) -> Seq<MemoryRange>
        decreases n,
    {
        if n <= 0 || n > self.program_headers@.len() {
            Seq::empty()
        } else if Self::is_readable_segment(self.program_headers@[n - 1]) {
            self.ranges_upto(n - 1).push(Self::range_of(self.addr, self.program_headers@[n - 1]))
        } else {
            self.ranges_upto(n - 1)
        }
    }

    /// Describes an object that the loader has listed. An object without
    /// program headers is passed over.
    pub fn new(addr: u64, name: String, program_headers: Vec<ElfPhdr>) -> (r: Option<LoadedLibrary>)
        ensures
            r is Some <==> program_headers@.len() > 0,
            r matches Some(lib) ==> lib.addr == addr && lib.name == name && lib.program_headers
                == program_headers,
    {
        if program_headers.len() == 0 {
            None
        } else {
            Some(LoadedLibrary { addr, name, program_headers })
        }
    }

    /// The ranges of memory that hold the object's tables: those of its
    /// loadable segments that may be read.
    pub fn readable_ranges(&self) -> (r: Vec<MemoryRange>)
        ensures
            r@ == self.ranges_upto(self.program_headers@.len() as int),
    {
        let mut out: Vec<MemoryRange> = Vec::new();
        let mut i: usize = 0;
        while i < self.program_headers.len()
            invariant
                i <= self.program_headers@.len(),
                out@ == self.ranges_upto(i as int),
            decreases self.program_headers@.len() - i,
        {
            let header = &self.program_headers[i];
            if header.p_type() == PT_LOAD && header.p_flags() & PF_R != 0 {
                out.push(
                    MemoryRange {
                        start: header.class().sum(self.addr, header.p_vaddr()),
                        len: header.p_memsz(),
                    },
                );
            }
            i = i + 1;
        }
        out
    }

    /// The address at which the object was placed.
    pub fn addr(&self) -> (r: u64)
        ensures
            r == self.addr,
    {
        self.addr
    }

    /// The path that the loader used; empty for the main executable on some
    /// platforms.
    pub fn name(&self) -> (r: &str)
        ensures
            r@ == self.name@,
    {
        self.name.as_str()
    }

    /// The program headers of the object.
    pub fn program_headers(&self) -> (r: &Vec<ElfPhdr>)
        ensures
            r@ == self.program_headers@,
    {
        &self.program_headers
    }

    /// The dynamic section of the object, where it has one.
    pub fn dynamic_section<'a>(&self, memory: &'a ProcessMemory) -> (r: Option<DynamicSection<'a>>)
        ensures
            match r {
                Some(s) => s.memory == memory && spec_dynamic_address(self) == Some(s.address),
                None => spec_dynamic_address(self) is None,
            },
    {
        match find_dynamic_section(self) {
            Some(address) => Some(DynamicSection { memory, address }),
            None => None,
        }
    }
}

/// Whether every table that the digest points to can be read, and for the
/// first that cannot, the error that names it.
pub open spec fn spec_mapped(memory: &ProcessMemory, d: DynamicDigest) -> Result<
    DynamicDigest,
    DynamicError,
> {
    if !memory.readable(d.strtab_ptr as int, d.strtab_size as int) {
        Err(DynamicError::Unmapped(DynamicSectionType::DT_STRTAB))
    } else if d.rel is Some && !memory.readable(
        d.rel.unwrap().ptr as int,
        d.rel.unwrap().size as int,
    ) {
        Err(DynamicError::Unmapped(DynamicSectionType::DT_REL))
    } else if d.rela is Some && !memory.readable(
        d.rela.unwrap().ptr as int,
        d.rela.unwrap().size as int,
    ) {
        Err(DynamicError::Unmapped(DynamicSectionType::DT_RELA))
    } else if d.plt is Some && !memory.readable(
        d.plt.unwrap().jmprel_ptr as int,
        d.plt.unwrap().pltrelsz as int,
    ) {
        Err(DynamicError::Unmapped(DynamicSectionType::DT_JMPREL))
    } else {
        Ok(d)
    }
}

/// What opening an object yields: the digest of its dynamic section, or the
/// reason why there is none. The object must have a dynamic section, its
/// entries must obey the rules of the digest, and its tables must be readable.
pub open spec fn spec_open(library: &LoadedLibrary, memory: &ProcessMemory) -> Result<
    DynamicDigest,
    DynamicError,
> {
    match spec_dynamic_address(library) {
        None => Err(DynamicError::MissingProgramHeader),
        Some(address) => match spec_digest(
            entries_from(memory, address as int),
            library.addr,
            memory.target.class,
        ) {
            Err(e) => Err(e),
            Ok(d) => spec_mapped(memory, d),
        },
    }
}

/// The bytes of a table, as a table of the given shape.
pub open spec fn table_model(
    memory: &ProcessMemory,
    ptr: u64,
    size: u64,
    addend: bool,
) -> TableModel {
    TableModel { bytes: memory.bytes_at(ptr as int, size as int), class: memory.target.class, addend }
}

/// The table that a symbol's import is looked for in first: at 64 bits the
/// relocations with addend, at 32 bits those without.
pub open spec fn import_relocs(memory: &ProcessMemory, d: DynamicDigest) -> Option<TableModel> {
    match memory.target.class {
        ElfClass::Elf64 => match d.rela {
            Some(t) => Some(table_model(memory, t.ptr, t.size, true)),
            None => None,
        },
        ElfClass::Elf32 => match d.rel {
            Some(t) => Some(table_model(memory, t.ptr, t.size, false)),
            None => None,
        },
    }
}

/// The table that a symbol's import is looked for in second: the relocations
/// of the procedure linkage table, where `DT_PLTREL` gives them the shape
/// that the word width asks for.
pub open spec fn import_plt(memory: &ProcessMemory, d: DynamicDigest) -> Option<TableModel> {
    match d.plt {
        Some(t) => if (t.pltrel_type == DynamicSectionType::DT_RELA) == (memory.target.class
            == ElfClass::Elf64) {
            Some(
                table_model(
                    memory,
                    t.jmprel_ptr,
                    t.pltrelsz,
                    t.pltrel_type == DynamicSectionType::DT_RELA,
                ),
            )
        } else {
            None
        },
        None => None,
    }
}

/// The relocation that satisfies the import of `name` in an object with the
/// digest `d`: none where the object has no symbol table, else the first
/// relocation that names a symbol called `name`, in the first table and then
/// in the second. `wanted` holds the relocation types that are asked for in
/// the one and in the other table.
pub open spec fn spec_import(
    memory: &ProcessMemory,
    d: DynamicDigest,
    name: Seq<u8>,
    wanted: Option<(u32, u32)>,
) -> Option<RelocationRef> {
    match d.symtab {
        None => None,
        Some(s) => spec_resolve(
            memory,
            s.symtab_ptr,
            memory.bytes_at(d.strtab_ptr as int, d.strtab_size as int),
            import_relocs(memory, d),
            import_plt(memory, d),
            name,
            wanted,
        ),
    }
}

/// Views of the tables that a digest points to.
#[derive(Clone, Copy)]
pub struct DynamicTables<'a> {
    pub strings: StringTableView<'a>,
    pub symbols: Option<DynamicSymbols<'a>>,
    pub relocs: Option<DynamicRelocations<'a>>,
    pub addend_relocs: Option<DynamicAddendRelocations<'a>>,
    pub plt: Option<RelocationTable<'a>>,
}

impl<'a> DynamicTables<'a> {
    /// Whether the views are those of the digest `d` in `memory`: each table
    /// that the digest names is there, with the bytes that the memory holds
    /// at its address, and no other.
    pub open spec fn views(&self, memory: &ProcessMemory, d: DynamicDigest) -> bool {
        let class = memory.target.class;
        &&& self.strings.raw@ == memory.bytes_at(d.strtab_ptr as int, d.strtab_size as int)
        &&& match self.symbols {
            Some(s) => d.symtab is Some && s.memory == memory && s.address
                == d.symtab.unwrap().symtab_ptr,
            None => d.symtab is None,
        }
        &&& match self.relocs {
            Some(t) => d.rel is Some && t.class == class && t.raw@ == memory.bytes_at(
                d.rel.unwrap().ptr as int,
                d.rel.unwrap().size as int,
            ),
            None => d.rel is None,
        }
        &&& match self.addend_relocs {
            Some(t) => d.rela is Some && t.class == class && t.raw@ == memory.bytes_at(
                d.rela.unwrap().ptr as int,
                d.rela.unwrap().size as int,
            ),
            None => d.rela is None,
        }
        &&& match self.plt {
            Some(t) => d.plt is Some && t@ == table_model(
                memory,
                d.plt.unwrap().jmprel_ptr,
                d.plt.unwrap().pltrelsz,
                d.plt.unwrap().pltrel_type == DynamicSectionType::DT_RELA,
            ),
            None => d.plt is None,
        }
    }

    /// The table that an import is looked for in first.
    pub open spec fn first_table(&self, class: ElfClass) -> Option<TableModel> {
        match class {
            ElfClass::Elf64 => match self.addend_relocs {
                Some(t) => Some(RelocationTable::WithAddend(t)@),
                None => None,
            },
            ElfClass::Elf32 => match self.relocs {
                Some(t) => Some(RelocationTable::WithoutAddend(t)@),
                None => None,
            },
        }
    }

    /// The table that an import is looked for in second.
    pub open spec fn second_table(&self, class: ElfClass) -> Option<TableModel> {
        match self.plt {
            Some(t) => if t@.addend == (class == ElfClass::Elf64) {
                Some(t@)
            } else {
                None
            },
            None => None,
        }
    }

    /// The relocation that satisfies the import of `name`.
    pub open spec fn spec_find_import(&self, name: Seq<u8>, wanted: Option<(u32, u32)>) -> Option<
        RelocationRef,
    > {
        match self.symbols {
            None => None,
            Some(s) => spec_resolve(
                s.memory,
                s.address,
                self.strings.raw@,
                self.first_table(s.memory.target.class),
                self.second_table(s.memory.target.class),
                name,
                wanted,
            ),
        }
    }

    /// Takes views of the tables that the digest points to. Each table must
    /// be readable; the first that is not gives the error.
    pub fn read(memory: &'a ProcessMemory, d: DynamicDigest) -> (r: Result<
        DynamicTables<'a>,
        DynamicError,
    >)
        ensures
            match r {
                Ok(t) => spec_mapped(memory, d) == Ok::<DynamicDigest, DynamicError>(d) && t.views(
                    memory,
                    d,
                ),
                Err(e) => spec_mapped(memory, d) == Err::<DynamicDigest, DynamicError>(e),
            },
    {
        let class = memory.class();
        let strings = match memory.read(d.strtab_ptr, d.strtab_size) {
            None => { return Err(DynamicError::Unmapped(DynamicSectionType::DT_STRTAB)); },
            Some(raw) => StringTableView { raw },
        };
        let symbols = match d.symtab {
            Some(s) => Some(DynamicSymbols { memory, address: s.symtab_ptr }),
            None => None,
        };
        let relocs = match d.rel {
            None => None,
            Some(t) => match memory.read(t.ptr, t.size) {
                None => { return Err(DynamicError::Unmapped(DynamicSectionType::DT_REL)); },
                Some(raw) => Some(DynamicRelocations { raw, class }),
            },
        };
        let addend_relocs = match d.rela {
            None => None,
            Some(t) => match memory.read(t.ptr, t.size) {
                None => { return Err(DynamicError::Unmapped(DynamicSectionType::DT_RELA)); },
                Some(raw) => Some(DynamicAddendRelocations { raw, class }),
            },
        };
        let plt = match d.plt {
            None => None,
            Some(t) => match memory.read(t.jmprel_ptr, t.pltrelsz) {
                None => { return Err(DynamicError::Unmapped(DynamicSectionType::DT_JMPREL)); },
                Some(raw) => match t.pltrel_type {
                    DynamicSectionType::DT_RELA => Some(
                        RelocationTable::WithAddend(DynamicAddendRelocations { raw, class }),
                    ),
                    _ => Some(RelocationTable::WithoutAddend(DynamicRelocations { raw, class })),
                },
            },
        };
        Ok(DynamicTables { strings, symbols, relocs, addend_relocs, plt })
    }

    /// Looks for the relocation that satisfies the import of `name`, in the
    /// tables that the word width asks for.
    pub fn find_import(&self, name: &[u8], wanted: Option<(u32, u32)>) -> (r: Option<RelocationRef>)
        ensures
            r == self.spec_find_import(name@, wanted),
    {
        let symbols = match &self.symbols {
            None => { return None; },
            Some(s) => s,
        };
        match symbols.memory.class() {
            ElfClass::Elf64 => {
                let relocs = match self.addend_relocs {
                    Some(t) => Some(RelocationTable::WithAddend(t)),
                    None => None,
                };
                let plt = match self.plt {
                    Some(RelocationTable::WithAddend(t)) => Some(RelocationTable::WithAddend(t)),
                    _ => None,
                };
                resolve(symbols, &self.strings, relocs, plt, name, wanted)
            },
            ElfClass::Elf32 => {
                let relocs = match self.relocs {
                    Some(t) => Some(RelocationTable::WithoutAddend(t)),
                    None => None,
                };
                let plt = match self.plt {
                    Some(RelocationTable::WithoutAddend(t)) => Some(
                        RelocationTable::WithoutAddend(t),
                    ),
                    _ => None,
                };
                resolve(symbols, &self.strings, relocs, plt, name, wanted)
            },
        }
    }

    /// What is found in views of a digest is what the digest says.
    pub proof fn lemma_find_import(
        &self,
        memory: &ProcessMemory,
        d: DynamicDigest,
        name: Seq<u8>,
        wanted: Option<(u32, u32)>,
    )
        requires
            self.views(memory, d),
        ensures
            self.spec_find_import(name, wanted) == spec_import(memory, d, name, wanted),
    {
    }
}

/// An object whose dynamic section has been digested, with views of the
/// tables that it points to. The views borrow from the memory.
pub struct DynamicLibrary<'a> {
    library: LoadedLibrary,
    memory: &'a ProcessMemory,
    digest: DynamicDigest,
    dyn_section: DynamicSection<'a>,
    dyn_string_table: StringTableView<'a>,
    dyn_symbols: Option<DynamicSymbols<'a>>,
    dyn_relocs: Option<DynamicRelocations<'a>>,
    dyn_addend_relocs: Option<DynamicAddendRelocations<'a>>,
    dyn_plt: Option<RelocationTable<'a>>,
}

impl<'a> DynamicLibrary<'a> {
    #[verifier::type_invariant]
    spec fn well_formed(&self) -> bool {
        let d = self.digest;
        let class = self.memory.target.class;
        &&& spec_open(&self.library, self.memory) == Ok::<DynamicDigest, DynamicError>(d)
        &&& self.dyn_section.memory == self.memory
        &&& spec_dynamic_address(&self.library) == Some(self.dyn_section.address)
        &&& self.dyn_string_table.raw@ == self.memory.bytes_at(
            d.strtab_ptr as int,
            d.strtab_size as int,
        )
        &&& match self.dyn_symbols {
            Some(s) => d.symtab is Some && s.memory == self.memory && s.address
                == d.symtab.unwrap().symtab_ptr,
            None => d.symtab is None,
        }
        &&& match self.dyn_relocs {
            Some(t) => d.rel is Some && t.class == class && t.raw@ == self.memory.bytes_at(
                d.rel.unwrap().ptr as int,
                d.rel.unwrap().size as int,
            ),
            None => d.rel is None,
        }
        &&& match self.dyn_addend_relocs {
            Some(t) => d.rela is Some && t.class == class && t.raw@ == self.memory.bytes_at(
                d.rela.unwrap().ptr as int,
                d.rela.unwrap().size as int,
            ),
            None => d.rela is None,
        }
        &&& match self.dyn_plt {
            Some(t) => d.plt is Some && t@ == table_model(
                self.memory,
                d.plt.unwrap().jmprel_ptr,
                d.plt.unwrap().pltrelsz,
                d.plt.unwrap().pltrel_type == DynamicSectionType::DT_RELA,
            ),
            None => d.plt is None,
        }
    }

    /// The object that was opened.
    pub closed spec fn spec_library(&self) -> &LoadedLibrary {
        &self.library
    }

    /// The memory that the tables are read from.
    pub closed spec fn spec_memory(&self) -> &'a ProcessMemory {
        self.memory
    }

    /// The digest of the object's dynamic section.
    pub closed spec fn spec_digest(&self) -> DynamicDigest {
        self.digest
    }

    /// The bytes of the string table.
    pub open spec fn string_bytes(&self) -> Seq<u8> {
        self.spec_memory().bytes_at(
            self.spec_digest().strtab_ptr as int,
            self.spec_digest().strtab_size as int,
        )
    }

    /// Where the symbol table lies.
    pub open spec fn symtab_address(&self) -> Option<u64> {
        match self.spec_digest().symtab {
            Some(s) => Some(s.symtab_ptr),
            None => None,
        }
    }

    /// The relocations without addend.
    pub open spec fn relocs_model(&self) -> Option<TableModel> {
        match self.spec_digest().rel {
            Some(t) => Some(table_model(self.spec_memory(), t.ptr, t.size, false)),
            None => None,
        }
    }

    /// The relocations with addend.
    pub open spec fn addend_relocs_model(&self) -> Option<TableModel> {
        match self.spec_digest().rela {
            Some(t) => Some(table_model(self.spec_memory(), t.ptr, t.size, true)),
            None => None,
        }
    }

    /// The relocations of the procedure linkage table, in the shape that
    /// `DT_PLTREL` names.
    pub open spec fn plt_model(&self) -> Option<TableModel> {
        match self.spec_digest().plt {
            Some(t) => Some(
                table_model(
                    self.spec_memory(),
                    t.jmprel_ptr,
                    t.pltrelsz,
                    t.pltrel_type == DynamicSectionType::DT_RELA,
                ),
            ),
            None => None,
        }
    }

    /// Opens an object: finds its dynamic section, digests it, and takes
    /// views of the tables that it points to.
    pub fn initialize(lib: LoadedLibrary, memory: &'a ProcessMemory) -> (r: Result<
        DynamicLibrary<'a>,
        DynamicError,
    >)
        ensures
            match r {
                Ok(opened) => spec_open(&lib, memory) == Ok::<DynamicDigest, DynamicError>(
                    opened.spec_digest(),
                ) && *opened.spec_library() == lib && opened.spec_memory() == memory,
                Err(e) => spec_open(&lib, memory) == Err::<DynamicDigest, DynamicError>(e),
            },
    {
        let class = memory.class();
        let dyn_section = match lib.dynamic_section(memory) {
            None => { return Err(DynamicError::MissingProgramHeader); },
            Some(s) => s,
        };
        let entries = dyn_section.entries();
        let digest = match DynamicDigest::parse(&entries, lib.addr(), class) {
            Err(e) => { return Err(e); },
            Ok(d) => d,
        };
        let tables = match DynamicTables::read(memory, digest) {
            Err(e) => { return Err(e); },
            Ok(t) => t,
        };
        let dyn_string_table = tables.strings;
        let dyn_symbols = tables.symbols;
        let dyn_relocs = tables.relocs;
        let dyn_addend_relocs = tables.addend_relocs;
        let dyn_plt = tables.plt;
        Ok(
            DynamicLibrary {
                library: lib,
                memory,
                digest,
                dyn_section,
                dyn_string_table,
                dyn_symbols,
                dyn_relocs,
                dyn_addend_relocs,
                dyn_plt,
            },
        )
    }

    /// The object that was opened.
    pub fn library(&self) -> (r: &LoadedLibrary)
        ensures
            r == self.spec_library(),
    {
        &self.library
    }

    /// The address at which the object was placed.
    pub fn base_address(&self) -> (r: u64)
        ensures
            r == self.spec_library().addr,
    {
        self.library.addr
    }

    /// The digest of the object's dynamic section.
    pub fn digest(&self) -> (r: DynamicDigest)
        ensures
            r == self.spec_digest(),
            spec_open(self.spec_library(), self.spec_memory()) == Ok::<
                DynamicDigest,
                DynamicError,
            >(r),
    {
        proof {
            use_type_invariant(self);
        }
        self.digest
    }

    /// The string table.
    pub fn string_table(&self) -> (r: &StringTableView<'a>)
        ensures
            r.raw@ == self.string_bytes(),
    {
        proof {
            use_type_invariant(self);
        }
        &self.dyn_string_table
    }

    /// The symbol table, where the object has one.
    pub fn symbols(&self) -> (r: Option<&DynamicSymbols<'a>>)
        ensures
            match r {
                Some(s) => s.memory == self.spec_memory() && self.symtab_address() == Some(
                    s.address,
                ),
                None => self.symtab_address() is None,
            },
    {
        proof {
            use_type_invariant(self);
        }
        self.dyn_symbols.as_ref()
    }

    /// The relocations without addend, where the object has any.
    pub fn relocs(&self) -> (r: Option<&DynamicRelocations<'a>>)
        ensures
            match r {
                Some(t) => self.relocs_model() == Some(
                    RelocationTable::WithoutAddend(*t)@,
                ),
                None => self.relocs_model() is None,
            },
    {
        proof {
            use_type_invariant(self);
        }
        self.dyn_relocs.as_ref()
    }

    /// The relocations with addend, where the object has any.
    pub fn addend_relocs(&self) -> (r: Option<&DynamicAddendRelocations<'a>>)
        ensures
            match r {
                Some(t) => self.addend_relocs_model() == Some(
                    RelocationTable::WithAddend(*t)@,
                ),
                None => self.addend_relocs_model() is None,
            },
    {
        proof {
            use_type_invariant(self);
        }
        self.dyn_addend_relocs.as_ref()
    }

    /// The relocations of the procedure linkage table, where the object has
    /// any, in the shape that `DT_PLTREL` names.
    pub fn plt(&self) -> (r: Option<&RelocationTable<'a>>)
        ensures
            model_of(
                match r {
                    Some(t) => Some(*t),
                    None => None,
                },
            ) == self.plt_model(),
    {
        proof {
            use_type_invariant(self);
        }
        self.dyn_plt.as_ref()
    }

    /// The relocations of the procedure linkage table, where they have no
    /// addend.
    pub fn plt_rels(&self) -> (r: Option<&DynamicRelocations<'a>>)
        ensures
            match r {
                Some(t) => self.plt_model() == Some(RelocationTable::WithoutAddend(*t)@),
                None => self.plt_model() is None || self.plt_model().unwrap().addend,
            },
    {
        proof {
            use_type_invariant(self);
        }
        match &self.dyn_plt {
            Some(RelocationTable::WithoutAddend(t)) => Some(t),
            _ => None,
        }
    }

    /// The relocations of the procedure linkage table, where they have an
    /// addend.
    pub fn plt_relas(&self) -> (r: Option<&DynamicAddendRelocations<'a>>)
        ensures
            match r {
                Some(t) => self.plt_model() == Some(RelocationTable::WithAddend(*t)@),
                None => self.plt_model() is None || !self.plt_model().unwrap().addend,
            },
    {
        proof {
            use_type_invariant(self);
        }
        match &self.dyn_plt {
            Some(RelocationTable::WithAddend(t)) => Some(t),
            _ => None,
        }
    }

    /// The relocation that satisfies the import of `name`: none where the
    /// object has no symbol table, else the first relocation that names a
    /// symbol called `name`, in the first table and then in the second.
    pub open spec fn spec_find_function(&self, name: Seq<u8>) -> Option<RelocationRef> {
        spec_import(self.spec_memory(), self.spec_digest(), name, None)
    }

    /// The address of the slot through which calls of `name` go: the offset
    /// of its relocation, moved by the load bias.
    pub open spec fn spec_find_got_slot(&self, name: Seq<u8>) -> Option<u64> {
        match self.spec_find_function(name) {
            Some(e) => Some(
                self.spec_memory().target.class.spec_sum(
                    self.spec_library().addr,
                    e.spec_r_offset(),
                ),
            ),
            None => None,
        }
    }

    /// Looks for the relocation that satisfies the import of `symbol_name`.
    pub fn try_find_function(&self, symbol_name: &str) -> (r: Option<RelocationRef>)
        ensures
            r == self.spec_find_function(symbol_name.spec_bytes()),
    {
        proof {
            use_type_invariant(self);
        }
        let tables = DynamicTables {
            strings: self.dyn_string_table,
            symbols: self.dyn_symbols,
            relocs: self.dyn_relocs,
            addend_relocs: self.dyn_addend_relocs,
            plt: self.dyn_plt,
        };
        proof {
            tables.lemma_find_import(self.memory, self.digest, symbol_name.spec_bytes(), None);
        }
        tables.find_import(symbol_name.as_bytes(), None)
    }

    /// Looks for the address of the slot through which calls of
    /// `symbol_name` go.
    pub fn find_got_slot(&self, symbol_name: &str) -> (r: Option<u64>)
        ensures
            r == self.spec_find_got_slot(symbol_name.spec_bytes()),
    {
        proof {
            use_type_invariant(self);
        }
        match self.try_find_function(symbol_name) {
            Some(e) => Some(self.memory.class().sum(self.library.addr, e.r_offset())),
            None => None,
        }
    }
}

/// Opening an object is a function of the object and of the memory: two
/// digests that both come of opening the same object in the same memory are
/// equal, field by field, and so are the tables that they point to.
pub proof fn lemma_open_deterministic(
    library: &LoadedLibrary,
    memory: &ProcessMemory,
    first: DynamicLibrary<'_>,
    second: DynamicLibrary<'_>,
)
    requires
        spec_open(library, memory) == Ok::<DynamicDigest, DynamicError>(first.spec_digest()),
        spec_open(library, memory) == Ok::<DynamicDigest, DynamicError>(second.spec_digest()),
        first.spec_memory() == memory,
        second.spec_memory() == memory,
    ensures
        first.spec_digest() == second.spec_digest(),
        first.string_bytes() == second.string_bytes(),
        first.symtab_address() == second.symtab_address(),
        first.relocs_model() == second.relocs_model(),
        first.addend_relocs_model() == second.addend_relocs_model(),
        first.plt_model() == second.plt_model(),
{
}

/// The names of an object's symbols lie inside its string table. In an
/// object that opens and has a symbol table, the name that a symbol resolves
/// to starts at the symbol's `st_name`, which lies in the table and is not
/// 0, it ends before the table does, and each of its bytes is the byte of
/// the table at that place. The table is as large as `DT_STRSZ` says.
pub proof fn lemma_names_within_string_table(
    library: &LoadedLibrary,
    memory: &ProcessMemory,
    index: int,
)
    requires
        spec_open(library, memory) is Ok,
        spec_open(library, memory)->Ok_0.symtab is Some,
    ensures
        ({
            let d = spec_open(library, memory)->Ok_0;
            let strings = memory.bytes_at(d.strtab_ptr as int, d.strtab_size as int);
            let symtab = d.symtab.unwrap().symtab_ptr;
            &&& strings.len() == d.strtab_size
            &&& symbol_name(memory, symtab, index, strings) matches Some(name) ==> {
                let start = symbol_at(memory, symtab, index).unwrap().spec_st_name() as int;
                &&& 0 < start < d.strtab_size
                &&& start + name.len() <= d.strtab_size
                &&& forall|k: int| 0 <= k < name.len() ==> name[k] == strings[start + k]
            }
        }),
{
    let d = spec_open(library, memory)->Ok_0;
    let strings = memory.bytes_at(d.strtab_ptr as int, d.strtab_size as int);
    memory.lemma_bytes_len(d.strtab_ptr as int, d.strtab_size as int);
    lemma_symbol_name_bounded(memory, d.symtab.unwrap().symtab_ptr, index, strings);
}

/// The size of a table. In an object that opens, every relocation table has
/// as many bytes as the dynamic section says, and where that number is a
/// multiple of the size of a record, the number of records times the size of
/// a record gives it back.
pub proof fn lemma_table_sizing(library: &LoadedLibrary, memory: &ProcessMemory)
    requires
        spec_open(library, memory) is Ok,
    ensures
        ({
            let d = spec_open(library, memory)->Ok_0;
            let class = memory.target.class;
            &&& d.rel matches Some(t) ==> {
                let m = table_model(memory, t.ptr, t.size, false);
                &&& t.entry_size == class.spec_rel_size()
                &&& m.bytes.len() == t.size
                &&& t.size as int % m.record_size() == 0 ==> m.len() * m.record_size() == t.size
            }
            &&& d.rela matches Some(t) ==> {
                let m = table_model(memory, t.ptr, t.size, true);
                &&& t.entry_size == class.spec_rela_size()
                &&& m.bytes.len() == t.size
                &&& t.size as int % m.record_size() == 0 ==> m.len() * m.record_size() == t.size
            }
            &&& d.plt matches Some(t) ==> {
                let m = table_model(
                    memory,
                    t.jmprel_ptr,
                    t.pltrelsz,
                    t.pltrel_type == DynamicSectionType::DT_RELA,
                );
                &&& t.pltrel_type == DynamicSectionType::DT_REL || t.pltrel_type
                    == DynamicSectionType::DT_RELA
                &&& m.bytes.len() == t.pltrelsz
                &&& t.pltrelsz as int % m.record_size() == 0 ==> m.len() * m.record_size()
                    == t.pltrelsz
            }
        }),
{
    let d = spec_open(library, memory)->Ok_0;
    if d.rel is Some {
        let t = d.rel.unwrap();
        memory.lemma_bytes_len(t.ptr as int, t.size as int);
        lemma_whole_records(t.size as int, memory.target.class.spec_rel_size() as int);
    }
    if d.rela is Some {
        let t = d.rela.unwrap();
        memory.lemma_bytes_len(t.ptr as int, t.size as int);
        lemma_whole_records(t.size as int, memory.target.class.spec_rela_size() as int);
    }
    if d.plt is Some {
        let t = d.plt.unwrap();
        memory.lemma_bytes_len(t.jmprel_ptr as int, t.pltrelsz as int);
        lemma_whole_records(t.pltrelsz as int, memory.target.class.spec_rel_size() as int);
        lemma_whole_records(t.pltrelsz as int, memory.target.class.spec_rela_size() as int);
    }
}

/// A number that is a multiple of `size` is `size` times its quotient.
pub proof fn lemma_whole_records(len: int, size: int)
    requires
        size > 0,
        0 <= len,
    ensures
        len % size == 0 ==> (len / size) * size == len,
{
    assert(len % size == 0 ==> (len / size) * size == len) by (nonlinear_arith)
        requires
            size > 0,
            0 <= len,
    {
        assert(len == size * (len / size) + len % size);
    }
}

} // verus!

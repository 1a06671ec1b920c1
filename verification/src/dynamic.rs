//! The dynamic section of a loaded object: its tags, the walk over its
//! entries, and the digest of what the entries say.

use crate::elf64::DynTypeError;
use crate::memory::ProcessMemory;
use crate::unixy::{ElfClass, ElfDyn};
use vstd::prelude::*;

verus! {

/// A recognised tag of a dynamic-section entry.
#[allow(non_camel_case_types)]
#[derive(Debug, Clone, Copy, PartialEq, Eq, Structural)]
pub enum DynamicSectionType {
    DT_NULL,
    DT_PLTRELSZ,
    DT_PLTGOT,
    DT_PLTREL,
    DT_STRTAB,
    DT_SYMTAB,
    DT_SYMENT,
    DT_REL,
    DT_RELSZ,
    DT_RELENT,
    DT_RELA,
    DT_RELASZ,
    DT_RELAENT,
    DT_STRSZ,
    DT_JMPREL,
}

impl DynamicSectionType {
    /// The number that stands for the tag in a `d_tag` field.
    pub open spec fn spec_tag(self) -> u64 {
        match self {
            DynamicSectionType::DT_NULL => 0,
            DynamicSectionType::DT_PLTRELSZ => 2,
            DynamicSectionType::DT_PLTGOT => 3,
            DynamicSectionType::DT_PLTREL => 20,
            DynamicSectionType::DT_STRTAB => 5,
            DynamicSectionType::DT_SYMTAB => 6,
            DynamicSectionType::DT_SYMENT => 11,
            DynamicSectionType::DT_REL => 17,
            DynamicSectionType::DT_RELSZ => 18,
            DynamicSectionType::DT_RELENT => 19,
            DynamicSectionType::DT_RELA => 7,
            DynamicSectionType::DT_RELASZ => 8,
            DynamicSectionType::DT_RELAENT => 9,
            DynamicSectionType::DT_STRSZ => 10,
            DynamicSectionType::DT_JMPREL => 23,
        }
    }

    /// The number that stands for the tag in a `d_tag` field.
    #[verifier::when_used_as_spec(spec_tag)]
    pub fn tag(self) -> (r: u64)
        ensures
            r == self.spec_tag(),
    {
        match self {
            DynamicSectionType::DT_NULL => 0,
            DynamicSectionType::DT_PLTRELSZ => 2,
            DynamicSectionType::DT_PLTGOT => 3,
            DynamicSectionType::DT_PLTREL => 20,
            DynamicSectionType::DT_STRTAB => 5,
            DynamicSectionType::DT_SYMTAB => 6,
            DynamicSectionType::DT_SYMENT => 11,
            DynamicSectionType::DT_REL => 17,
            DynamicSectionType::DT_RELSZ => 18,
            DynamicSectionType::DT_RELENT => 19,
            DynamicSectionType::DT_RELA => 7,
            DynamicSectionType::DT_RELASZ => 8,
            DynamicSectionType::DT_RELAENT => 9,
            DynamicSectionType::DT_STRSZ => 10,
            DynamicSectionType::DT_JMPREL => 23,
        }
    }

    /// The tag that a number stands for, if the library reads it.
    pub open spec fn of_tag(value: u64) -> Option<DynamicSectionType> {
        if value == 0 {
            Some(DynamicSectionType::DT_NULL)
        } else if value == 2 {
            Some(DynamicSectionType::DT_PLTRELSZ)
        } else if value == 3 {
            Some(DynamicSectionType::DT_PLTGOT)
        } else if value == 20 {
            Some(DynamicSectionType::DT_PLTREL)
        } else if value == 5 {
            Some(DynamicSectionType::DT_STRTAB)
        } else if value == 6 {
            Some(DynamicSectionType::DT_SYMTAB)
        } else if value == 11 {
            Some(DynamicSectionType::DT_SYMENT)
        } else if value == 17 {
            Some(DynamicSectionType::DT_REL)
        } else if value == 18 {
            Some(DynamicSectionType::DT_RELSZ)
        } else if value == 19 {
            Some(DynamicSectionType::DT_RELENT)
        } else if value == 7 {
            Some(DynamicSectionType::DT_RELA)
        } else if value == 8 {
            Some(DynamicSectionType::DT_RELASZ)
        } else if value == 9 {
            Some(DynamicSectionType::DT_RELAENT)
        } else if value == 10 {
            Some(DynamicSectionType::DT_STRSZ)
        } else if value == 23 {
            Some(DynamicSectionType::DT_JMPREL)
        } else {
            None
        }
    }
}

/// Why the dynamic section of an object could not be digested.
#[derive(Debug, Clone, Copy, PartialEq, Eq, Structural)]
pub enum DynamicError {
    /// The value of `DT_PLTREL` is neither `DT_REL` nor `DT_RELA`.
    UnknownDynamicTag(u64),
    /// The first tag is there and the second, which it needs, is not.
    MissingDependentSection(DynamicSectionType, DynamicSectionType),
    /// A tag that every object must have is not there.
    MissingRequiredSection(DynamicSectionType),
    /// The object has no program header of type `PT_DYNAMIC`.
    MissingProgramHeader,
    /// The entry size that the tag gives is not the size of the record, and
    /// the number that it gives instead.
    EntrySize(DynamicSectionType, u64),
    /// The table that the tag points to lies outside the memory that was copied.
    Unmapped(DynamicSectionType),
}

/// The entry at `addr`, where one can be read.
pub open spec fn entry_at(memory: &ProcessMemory, addr: int) -> Option<ElfDyn> {
    let class = memory.target.class;
    let size = class.spec_dyn_size() as int;
    if 0 <= addr <= u64::MAX && memory.readable(addr, size) {
        Some(ElfDyn::spec_decode(class, memory.bytes_at(addr, size), 0))
    } else {
        None
    }
}

/// The entries from `addr` on, up to and without the first entry whose tag is
/// `DT_NULL`, or up to the first place where no entry can be read.
pub open spec fn entries_from(memory: &ProcessMemory, addr: int) -> Seq<ElfDyn>
    decreases u64::MAX + 32 - addr,
{
    if addr < 0 || addr > u64::MAX {
        Seq::empty()
    } else {
        match entry_at(memory, addr) {
            None => Seq::empty(),
            Some(e) => if e.spec_d_tag() == 0 {
                Seq::empty()
            } else {
                seq![e] + match memory.target.class {
                    ElfClass::Elf32 => entries_from(memory, addr + 8),
                    ElfClass::Elf64 => entries_from(memory, addr + 16),
                }
            },
        }
    }
}

/// The first entry at or after `from` that carries `tag`.
pub open spec fn find_from(entries: Seq<ElfDyn>, tag: int, from: int) -> Option<ElfDyn>
    decreases entries.len() - from,
{
    if from < 0 || from >= entries.len() {
        None
    } else if entries[from].spec_d_tag() == tag {
        Some(entries[from])
    } else {
        find_from(entries, tag, from + 1)
    }
}

/// The first entry that carries `tag`.
pub open spec fn find_tag(entries: Seq<ElfDyn>, tag: int) -> Option<ElfDyn> {
    find_from(entries, tag, 0)
}

/// The value of the first entry that carries `tag`.
pub open spec fn value_of(entries: Seq<ElfDyn>, tag: DynamicSectionType) -> Option<u64> {
    match find_tag(entries, tag.spec_tag() as int) {
        Some(e) => Some(e.spec_d_val()),
        None => None,
    }
}

/// Looks for the first entry that carries `tag`.
pub fn find_entry(entries: &Vec<ElfDyn>, tag: i64) -> (r: Option<ElfDyn>)
    ensures
        r == find_tag(entries@, tag as int),
{
    let mut i: usize = 0;
    while i < entries.len()
        invariant
            i <= entries@.len(),
            find_tag(entries@, tag as int) == find_from(entries@, tag as int, i as int),
        decreases entries@.len() - i,
    {
        if entries[i].d_tag() == tag {
            return Some(entries[i]);
        }
        i = i + 1;
    }
    None
}

/// Looks for the value of the first entry that carries `tag`.
pub fn find_value(entries: &Vec<ElfDyn>, tag: DynamicSectionType) -> (r: Option<u64>)
    ensures
        r == value_of(entries@, tag),
{
    match find_entry(entries, tag.tag() as i64) {
        Some(e) => Some(e.d_val()),
        None => None,
    }
}

/// The dynamic section of one object: where its entries start, in a memory.
#[derive(Clone, Copy)]
pub struct DynamicSection<'a> {
    pub memory: &'a ProcessMemory,
    pub address: u64,
}

impl<'a> DynamicSection<'a> {
    /// The entries of the section, in order.
    pub open spec fn spec_entries(&self) -> Seq<ElfDyn> {
        entries_from(self.memory, self.address as int)
    }

    /// Reads the entries of the section, in order.
    pub fn entries(&self) -> (r: Vec<ElfDyn>)
        ensures
            r@ == self.spec_entries(),
    {
        let class = self.memory.class();
        let size: usize = class.dyn_size();
        let mut out: Vec<ElfDyn> = Vec::new();
        let mut addr: u64 = self.address;
        loop
            invariant_except_break
                self.spec_entries() == out@ + entries_from(self.memory, addr as int),
            invariant
                class == self.memory.target.class,
                size == class.spec_dyn_size(),
            ensures
                self.spec_entries() == out@,
            decreases u64::MAX - addr,
        {
            match self.memory.read(addr, size as u64) {
                None => {
                    assert(out@ + Seq::<ElfDyn>::empty() == out@);
                    break ;
                },
                Some(s) => {
                    proof {
                        self.memory.lemma_bytes_len(addr as int, size as int);
                    }
                    let e = ElfDyn::decode(class, s, 0);
                    if e.d_tag() == 0 {
                        assert(out@ + Seq::<ElfDyn>::empty() == out@);
                        break ;
                    }
                    let ghost before = out@;
                    out.push(e);
                    assert(before + (seq![e] + entries_from(self.memory, addr + size)) == out@
                        + entries_from(self.memory, addr + size));
                    match addr.checked_add(size as u64) {
                        None => {
                            assert(entries_from(self.memory, addr + size) == Seq::<ElfDyn>::empty());
                            assert(out@ + Seq::<ElfDyn>::empty() == out@);
                            break ;
                        },
                        Some(next) => {
                            addr = next;
                        },
                    }
                },
            }
        }
        out
    }
}

/// Where a table lies once the load bias is taken into account: a value that
/// is not above the base is an offset from it, a larger one is an address
/// already.
pub open spec fn spec_rebase(class: ElfClass, value: u64, base: u64) -> u64 {
    if value <= base {
        class.spec_sum(base, value)
    } else {
        value
    }
}

/// Turns a pointer-valued entry into an address.
#[verifier::when_used_as_spec(spec_rebase)]
pub fn rebase(class: ElfClass, value: u64, base: u64) -> (r: u64)
    ensures
        r == spec_rebase(class, value, base),
{
    if value <= base {
        class.sum(base, value)
    } else {
        value
    }
}

/// Where the symbol table lies and how large the tag says one symbol is.
#[derive(Debug, Clone, Copy, PartialEq, Eq, Structural)]
pub struct SymbolDigest {
    pub symtab_ptr: u64,
    pub syment_size: u64,
}

/// Where a relocation table lies, how many bytes it takes, and how many one
/// entry takes.
#[derive(Debug, Clone, Copy, PartialEq, Eq, Structural)]
pub struct RelocationDigest {
    pub ptr: u64,
    pub size: u64,
    pub entry_size: u64,
}

/// Where the relocations of the procedure linkage table lie, how many bytes
/// they take, and which of the two record shapes they have: `DT_REL` or
/// `DT_RELA`.
#[derive(Debug, Clone, Copy, PartialEq, Eq, Structural)]
pub struct PltDigest {
    pub jmprel_ptr: u64,
    pub pltrelsz: u64,
    pub pltrel_type: DynamicSectionType,
}

/// What the entries of a dynamic section say, with every pointer turned into
/// an address.
#[derive(Debug, Clone, Copy, PartialEq, Eq, Structural)]
pub struct DynamicDigest {
    pub strtab_ptr: u64,
    pub strtab_size: u64,
    pub symtab: Option<SymbolDigest>,
    pub rel: Option<RelocationDigest>,
    pub rela: Option<RelocationDigest>,
    pub plt: Option<PltDigest>,
}

/// The string table: `DT_STRTAB` and `DT_STRSZ` must both be there.
pub open spec fn spec_strings(entries: Seq<ElfDyn>, base: u64, class: ElfClass) -> Result<
    (u64, u64),
    DynamicError,
> {
    match value_of(entries, DynamicSectionType::DT_STRTAB) {
        None => Err(DynamicError::MissingRequiredSection(DynamicSectionType::DT_STRTAB)),
        Some(ptr) => match value_of(entries, DynamicSectionType::DT_STRSZ) {
            None => Err(DynamicError::MissingRequiredSection(DynamicSectionType::DT_STRSZ)),
            Some(size) => Ok((spec_rebase(class, ptr, base), size)),
        },
    }
}

/// The symbol table: where `DT_SYMTAB` is there, `DT_SYMENT` must be there
/// and give the size of a symbol.
pub open spec fn spec_symbols(entries: Seq<ElfDyn>, base: u64, class: ElfClass) -> Result<
    Option<SymbolDigest>,
    DynamicError,
> {
    match value_of(entries, DynamicSectionType::DT_SYMTAB) {
        None => Ok(None),
        Some(ptr) => match value_of(entries, DynamicSectionType::DT_SYMENT) {
            None => Err(
                DynamicError::MissingDependentSection(
                    DynamicSectionType::DT_SYMTAB,
                    DynamicSectionType::DT_SYMENT,
                ),
            ),
            Some(size) => if size == class.spec_sym_size() {
                Ok(Some(SymbolDigest { symtab_ptr: spec_rebase(class, ptr, base), syment_size: size }))
            } else {
                Err(DynamicError::EntrySize(DynamicSectionType::DT_SYMENT, size))
            },
        },
    }
}

/// A relocation table: where the tag of its address is there, the tags of its
/// size and of its entry size must be there, and the entry size must be
/// `record`.
pub open spec fn spec_table(
    entries: Seq<ElfDyn>,
    base: u64,
    class: ElfClass,
    ptr_tag: DynamicSectionType,
    size_tag: DynamicSectionType,
    entry_tag: DynamicSectionType,
    record: u64,
) -> Result<Option<RelocationDigest>, DynamicError> {
    match value_of(entries, ptr_tag) {
        None => Ok(None),
        Some(ptr) => match value_of(entries, size_tag) {
            None => Err(DynamicError::MissingDependentSection(ptr_tag, size_tag)),
            Some(size) => match value_of(entries, entry_tag) {
                None => Err(DynamicError::MissingDependentSection(ptr_tag, entry_tag)),
                Some(entry_size) => if entry_size == record {
                    Ok(Some(RelocationDigest { ptr: spec_rebase(class, ptr, base), size, entry_size }))
                } else {
                    Err(DynamicError::EntrySize(entry_tag, entry_size))
                },
            },
        },
    }
}

/// The relocations of the procedure linkage table: where `DT_JMPREL` is
/// there, `DT_PLTRELSZ` and `DT_PLTREL` must be there, and the value of
/// `DT_PLTREL` must be the number of `DT_REL` or of `DT_RELA`.
pub open spec fn spec_plt(entries: Seq<ElfDyn>, base: u64, class: ElfClass) -> Result<
    Option<PltDigest>,
    DynamicError,
> {
    match value_of(entries, DynamicSectionType::DT_JMPREL) {
        None => Ok(None),
        Some(ptr) => match value_of(entries, DynamicSectionType::DT_PLTRELSZ) {
            None => Err(
                DynamicError::MissingDependentSection(
                    DynamicSectionType::DT_JMPREL,
                    DynamicSectionType::DT_PLTRELSZ,
                ),
            ),
            Some(size) => match value_of(entries, DynamicSectionType::DT_PLTREL) {
                None => Err(
                    DynamicError::MissingDependentSection(
                        DynamicSectionType::DT_JMPREL,
                        DynamicSectionType::DT_PLTREL,
                    ),
                ),
                Some(kind) => if kind == DynamicSectionType::DT_REL.spec_tag() {
                    Ok(
                        Some(
                            PltDigest {
                                jmprel_ptr: spec_rebase(class, ptr, base),
                                pltrelsz: size,
                                pltrel_type: DynamicSectionType::DT_REL,
                            },
                        ),
                    )
                } else if kind == DynamicSectionType::DT_RELA.spec_tag() {
                    Ok(
                        Some(
                            PltDigest {
                                jmprel_ptr: spec_rebase(class, ptr, base),
                                pltrelsz: size,
                                pltrel_type: DynamicSectionType::DT_RELA,
                            },
                        ),
                    )
                } else {
                    Err(DynamicError::UnknownDynamicTag(kind))
                },
            },
        },
    }
}

/// The digest of a dynamic section with the given entries, in an object
/// loaded at `base`: the string table, then the symbol table, the relocations
/// without addend, those with addend, and those of the procedure linkage
/// table. The first rule that is broken gives the error.
pub open spec fn spec_digest(entries: Seq<ElfDyn>, base: u64, class: ElfClass) -> Result<
    DynamicDigest,
    DynamicError,
> {
    match spec_strings(entries, base, class) {
        Err(e) => Err(e),
        Ok(strings) => match spec_symbols(entries, base, class) {
            Err(e) => Err(e),
            Ok(symtab) => match spec_table(
                entries,
                base,
                class,
                DynamicSectionType::DT_REL,
                DynamicSectionType::DT_RELSZ,
                DynamicSectionType::DT_RELENT,
                class.spec_rel_size() as u64,
            ) {
                Err(e) => Err(e),
                Ok(rel) => match spec_table(
                    entries,
                    base,
                    class,
                    DynamicSectionType::DT_RELA,
                    DynamicSectionType::DT_RELASZ,
                    DynamicSectionType::DT_RELAENT,
                    class.spec_rela_size() as u64,
                ) {
                    Err(e) => Err(e),
                    Ok(rela) => match spec_plt(entries, base, class) {
                        Err(e) => Err(e),
                        Ok(plt) => Ok(
                            DynamicDigest {
                                strtab_ptr: strings.0,
                                strtab_size: strings.1,
                                symtab,
                                rel,
                                rela,
                                plt,
                            },
                        ),
                    },
                },
            },
        },
    }
}

/// Digests the string table of the entries.
pub fn digest_strings(entries: &Vec<ElfDyn>, base: u64, class: ElfClass) -> (r: Result<
    (u64, u64),
    DynamicError,
>)
    ensures
        r == spec_strings(entries@, base, class),
{
    match find_value(entries, DynamicSectionType::DT_STRTAB) {
        None => Err(DynamicError::MissingRequiredSection(DynamicSectionType::DT_STRTAB)),
        Some(ptr) => match find_value(entries, DynamicSectionType::DT_STRSZ) {
            None => Err(DynamicError::MissingRequiredSection(DynamicSectionType::DT_STRSZ)),
            Some(size) => Ok((rebase(class, ptr, base), size)),
        },
    }
}

/// Digests the symbol table of the entries.
pub fn digest_symbols(entries: &Vec<ElfDyn>, base: u64, class: ElfClass) -> (r: Result<
    Option<SymbolDigest>,
    DynamicError,
>)
    ensures
        r == spec_symbols(entries@, base, class),
{
    match find_value(entries, DynamicSectionType::DT_SYMTAB) {
        None => Ok(None),
        Some(ptr) => match find_value(entries, DynamicSectionType::DT_SYMENT) {
            None => Err(
                DynamicError::MissingDependentSection(
                    DynamicSectionType::DT_SYMTAB,
                    DynamicSectionType::DT_SYMENT,
                ),
            ),
            Some(size) => if size == class.sym_size() as u64 {
                Ok(Some(SymbolDigest { symtab_ptr: rebase(class, ptr, base), syment_size: size }))
            } else {
                Err(DynamicError::EntrySize(DynamicSectionType::DT_SYMENT, size))
            },
        },
    }
}

/// Digests one relocation table of the entries.
pub fn digest_table(
    entries: &Vec<ElfDyn>,
    base: u64,
    class: ElfClass,
    ptr_tag: DynamicSectionType,
    size_tag: DynamicSectionType,
    entry_tag: DynamicSectionType,
    record: u64,
) -> (r: Result<Option<RelocationDigest>, DynamicError>)
    ensures
        r == spec_table(entries@, base, class, ptr_tag, size_tag, entry_tag, record),
{
    match find_value(entries, ptr_tag) {
        None => Ok(None),
        Some(ptr) => match find_value(entries, size_tag) {
            None => Err(DynamicError::MissingDependentSection(ptr_tag, size_tag)),
            Some(size) => match find_value(entries, entry_tag) {
                None => Err(DynamicError::MissingDependentSection(ptr_tag, entry_tag)),
                Some(entry_size) => if entry_size == record {
                    Ok(Some(RelocationDigest { ptr: rebase(class, ptr, base), size, entry_size }))
                } else {
                    Err(DynamicError::EntrySize(entry_tag, entry_size))
                },
            },
        },
    }
}

/// Digests the relocations of the procedure linkage table of the entries.
pub fn digest_plt(entries: &Vec<ElfDyn>, base: u64, class: ElfClass) -> (r: Result<
    Option<PltDigest>,
    DynamicError,
>)
    ensures
        r == spec_plt(entries@, base, class),
{
    match find_value(entries, DynamicSectionType::DT_JMPREL) {
        None => Ok(None),
        Some(ptr) => match find_value(entries, DynamicSectionType::DT_PLTRELSZ) {
            None => Err(
                DynamicError::MissingDependentSection(
                    DynamicSectionType::DT_JMPREL,
                    DynamicSectionType::DT_PLTRELSZ,
                ),
            ),
            Some(size) => match find_value(entries, DynamicSectionType::DT_PLTREL) {
                None => Err(
                    DynamicError::MissingDependentSection(
                        DynamicSectionType::DT_JMPREL,
                        DynamicSectionType::DT_PLTREL,
                    ),
                ),
                Some(kind) => match DynamicSectionType::try_from(kind) {
                    Ok(DynamicSectionType::DT_REL) => Ok(
                        Some(
                            PltDigest {
                                jmprel_ptr: rebase(class, ptr, base),
                                pltrelsz: size,
                                pltrel_type: DynamicSectionType::DT_REL,
                            },
                        ),
                    ),
                    Ok(DynamicSectionType::DT_RELA) => Ok(
                        Some(
                            PltDigest {
                                jmprel_ptr: rebase(class, ptr, base),
                                pltrelsz: size,
                                pltrel_type: DynamicSectionType::DT_RELA,
                            },
                        ),
                    ),
                    Ok(_) => Err(DynamicError::UnknownDynamicTag(kind)),
                    Err(DynTypeError(value)) => Err(DynamicError::UnknownDynamicTag(value)),
                },
            },
        },
    }
}

impl DynamicDigest {
    /// Digests the entries of the dynamic section of an object loaded at `base`.
    pub fn parse(entries: &Vec<ElfDyn>, base: u64, class: ElfClass) -> (r: Result<
        DynamicDigest,
        DynamicError,
    >)
        ensures
            r == spec_digest(entries@, base, class),
    {
        let strings = match digest_strings(entries, base, class) {
            Err(e) => { return Err(e); },
            Ok(v) => v,
        };
        let symtab = match digest_symbols(entries, base, class) {
            Err(e) => { return Err(e); },
            Ok(v) => v,
        };
        let rel = match digest_table(
            entries,
            base,
            class,
            DynamicSectionType::DT_REL,
            DynamicSectionType::DT_RELSZ,
            DynamicSectionType::DT_RELENT,
            class.rel_size() as u64,
        ) {
            Err(e) => { return Err(e); },
            Ok(v) => v,
        };
        let rela = match digest_table(
            entries,
            base,
            class,
            DynamicSectionType::DT_RELA,
            DynamicSectionType::DT_RELASZ,
            DynamicSectionType::DT_RELAENT,
            class.rela_size() as u64,
        ) {
            Err(e) => { return Err(e); },
            Ok(v) => v,
        };
        let plt = match digest_plt(entries, base, class) {
            Err(e) => { return Err(e); },
            Ok(v) => v,
        };
        Ok(DynamicDigest { strtab_ptr: strings.0, strtab_size: strings.1, symtab, rel, rela, plt })
    }
}

} // verus!

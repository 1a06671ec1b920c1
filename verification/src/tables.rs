//! Views of the tables that the dynamic section points to: the string table,
//! the symbols, and the relocations.

use crate::bytes::{bytes_eq, name_at, name_slice};
use crate::memory::ProcessMemory;
use crate::unixy::{ElfClass, ElfRel, ElfRela, ElfSym};
use vstd::prelude::*;

verus! {

/// The string table of an object: NUL-terminated names, each found by the
/// offset of its first byte.
#[derive(Clone, Copy)]
pub struct StringTableView<'a> {
    pub raw: &'a [u8],
}

impl<'a> StringTableView<'a> {
    /// The name that starts at `index`, where `index` lies in the table.
    pub open spec fn spec_get(&self, index: int) -> Option<Seq<u8>> {
        if 0 <= index < self.raw@.len() {
            Some(name_at(self.raw@, index))
        } else {
            None
        }
    }

    /// Bytes in the table.
    pub fn total_size(&self) -> (r: usize)
        ensures
            r == self.raw@.len(),
    {
        self.raw.len()
    }

    /// The name that starts at `index`: its bytes up to the first NUL, or up
    /// to the end of the table where no NUL follows. None where `index` lies
    /// outside the table.
    pub fn get(&self, index: usize) -> (r: Option<&'a [u8]>)
        ensures
            r is Some <==> index < self.raw@.len(),
            match r {
                Some(s) => self.spec_get(index as int) == Some(s@),
                None => self.spec_get(index as int) is None,
            },
            r matches Some(s) ==> index + s@.len() <= self.raw@.len() && forall|k: int|
                0 <= k < s@.len() ==> s@[k] == self.raw@[index + k],
    {
        if index >= self.raw.len() {
            None
        } else {
            proof {
                crate::bytes::lemma_name_len(self.raw@, index as int);
            }
            Some(name_slice(self.raw, index))
        }
    }
}

/// The symbol table of an object. The dynamic section gives its address and
/// not its length: a symbol exists as far as the memory can be read.
#[derive(Clone, Copy)]
pub struct DynamicSymbols<'a> {
    pub memory: &'a ProcessMemory,
    pub address: u64,
}

/// The symbol with the given number in the table at `symtab`, where it can
/// be read.
pub open spec fn symbol_at(memory: &ProcessMemory, symtab: u64, index: int) -> Option<ElfSym> {
    let class = memory.target.class;
    let size = class.spec_sym_size() as int;
    let addr = symtab + index * size;
    if 0 <= index && addr <= u64::MAX && memory.readable(addr, size) {
        Some(ElfSym::spec_decode(class, memory.bytes_at(addr, size), 0))
    } else {
        None
    }
}

/// The name of the symbol with the given number: none where the symbol
/// cannot be read, where its `st_name` is 0, or where `st_name` lies outside
/// the string table.
pub open spec fn symbol_name(
    memory: &ProcessMemory,
    symtab: u64,
    index: int,
    strings: Seq<u8>,
) -> Option<Seq<u8>> {
    match symbol_at(memory, symtab, index) {
        None => None,
        Some(sym) => if sym.spec_st_name() == 0 || sym.spec_st_name() >= strings.len() {
            None
        } else {
            Some(name_at(strings, sym.spec_st_name() as int))
        },
    }
}

/// A name that a symbol resolves to lies inside the string table: it starts
/// at the symbol's `st_name`, which is neither 0 nor outside the table, it
/// ends before the table does, and its bytes are the table's bytes.
pub proof fn lemma_symbol_name_bounded(
    memory: &ProcessMemory,
    symtab: u64,
    index: int,
    strings: Seq<u8>,
)
    ensures
        match symbol_name(memory, symtab, index, strings) {
            Some(name) => {
                let start = symbol_at(memory, symtab, index).unwrap().spec_st_name() as int;
                &&& 0 < start < strings.len()
                &&& start + name.len() <= strings.len()
                &&& forall|k: int| 0 <= k < name.len() ==> name[k] == strings[start + k] && name[k] != 0
            },
            None => true,
        },
{
    match symbol_name(memory, symtab, index, strings) {
        Some(name) => {
            let start = symbol_at(memory, symtab, index).unwrap().spec_st_name() as int;
            crate::bytes::lemma_name_len(strings, start);
        },
        None => {},
    }
}

impl<'a> DynamicSymbols<'a> {
    /// The symbol with the given number, where it can be read.
    pub open spec fn spec_get(&self, index: int) -> Option<ElfSym> {
        symbol_at(self.memory, self.address, index)
    }

    /// The name of the symbol with the given number.
    pub open spec fn spec_resolve_name(&self, index: int, strings: Seq<u8>) -> Option<Seq<u8>> {
        symbol_name(self.memory, self.address, index, strings)
    }

    /// Reads the symbol with the given number.
    pub fn get(&self, index: usize) -> (r: Option<ElfSym>)
        ensures
            r == self.spec_get(index as int),
    {
        let class = self.memory.class();
        let size: usize = class.sym_size();
        let offset: u128 = match class {
            ElfClass::Elf32 => index as u128 * 16,
            ElfClass::Elf64 => index as u128 * 24,
        };
        let addr: u128 = self.address as u128 + offset;
        if addr > u64::MAX as u128 {
            return None;
        }
        match self.memory.read(addr as u64, size as u64) {
            None => None,
            Some(s) => {
                proof {
                    self.memory.lemma_bytes_len(addr as int, size as int);
                }
                Some(ElfSym::decode(class, s, 0))
            },
        }
    }

    /// Looks up the name of the symbol with the given number.
    pub fn resolve_name(&self, index: usize, strings: &StringTableView<'a>) -> (r: Option<&'a [u8]>)
        ensures
            match r {
                Some(s) => self.spec_resolve_name(index as int, strings.raw@) == Some(s@),
                None => self.spec_resolve_name(index as int, strings.raw@) is None,
            },
    {
        raw_query_name(index, self, strings)
    }
}

/// Looks up the name of the symbol with number `index` of the table
/// `dyn_syms`: none where the symbol cannot be read or has no name.
pub fn raw_query_name<'a>(
    index: usize,
    dyn_syms: &DynamicSymbols<'a>,
    string_table: &StringTableView<'a>,
) -> (r: Option<&'a [u8]>)
    ensures
        match r {
            Some(s) => symbol_name(dyn_syms.memory, dyn_syms.address, index as int, string_table.raw@)
                == Some(s@),
            None => symbol_name(dyn_syms.memory, dyn_syms.address, index as int, string_table.raw@)
                is None,
        },
{
    match dyn_syms.get(index) {
        None => None,
        Some(idx) => {
            if idx.st_name() == 0 {
                None
            } else {
                string_table.get(idx.st_name() as usize)
            }
        },
    }
}

/// One relocation, of either shape.
#[derive(Debug, Clone, Copy, PartialEq, Eq, Structural)]
pub enum RelocationRef {
    WithAddend(ElfRela),
    WithoutAddend(ElfRel),
}

impl RelocationRef {
    pub open spec fn spec_r_offset(&self) -> u64 {
        match self {
            RelocationRef::WithAddend(r) => r.spec_r_offset(),
            RelocationRef::WithoutAddend(r) => r.spec_r_offset(),
        }
    }

    pub open spec fn spec_symbol_index(&self) -> u32 {
        match self {
            RelocationRef::WithAddend(r) => r.spec_symbol_index(),
            RelocationRef::WithoutAddend(r) => r.spec_symbol_index(),
        }
    }

    pub open spec fn spec_symbol_type(&self) -> u32 {
        match self {
            RelocationRef::WithAddend(r) => r.spec_symbol_type(),
            RelocationRef::WithoutAddend(r) => r.spec_symbol_type(),
        }
    }

    /// Where the slot lies, before the load bias is added.
    #[verifier::when_used_as_spec(spec_r_offset)]
    pub fn r_offset(&self) -> (r: u64)
        ensures
            r == self.spec_r_offset(),
    {
        match self {
            RelocationRef::WithAddend(r) => r.r_offset(),
            RelocationRef::WithoutAddend(r) => r.r_offset(),
        }
    }

    /// The number of the symbol that the relocation names.
    #[verifier::when_used_as_spec(spec_symbol_index)]
    pub fn symbol_index(&self) -> (r: u32)
        ensures
            r == self.spec_symbol_index(),
    {
        match self {
            RelocationRef::WithAddend(r) => r.symbol_index(),
            RelocationRef::WithoutAddend(r) => r.symbol_index(),
        }
    }

    /// The kind of relocation.
    #[verifier::when_used_as_spec(spec_symbol_type)]
    pub fn symbol_type(&self) -> (r: u32)
        ensures
            r == self.spec_symbol_type(),
    {
        match self {
            RelocationRef::WithAddend(r) => r.symbol_type(),
            RelocationRef::WithoutAddend(r) => r.symbol_type(),
        }
    }
}

/// A record of `size` bytes with number `i` lies inside `len` bytes where
/// `i` is below the number of whole records.
pub proof fn lemma_record_fits(len: int, size: int, i: int)
    requires
        size > 0,
        0 <= i < len / size,
    ensures
        0 <= i * size,
        i * size + size <= len,
{
    assert(i * size + size <= len && 0 <= i * size) by (nonlinear_arith)
        requires
            size > 0,
            0 <= i,
            i + 1 <= len / size,
    {
        assert((i + 1) * size <= (len / size) * size);
        assert((len / size) * size <= len);
        assert((i + 1) * size == i * size + size);
    }
}

/// A table of relocations without addend.
#[derive(Clone, Copy)]
pub struct DynamicRelocations<'a> {
    pub raw: &'a [u8],
    pub class: ElfClass,
}

impl<'a> DynamicRelocations<'a> {
    /// The number of whole records in the table.
    pub open spec fn spec_len(&self) -> int {
        self.raw@.len() as int / self.class.spec_rel_size() as int
    }

    /// The record with number `i`.
    pub open spec fn spec_entry(&self, i: int) -> ElfRel {
        ElfRel::spec_decode(self.class, self.raw@, i * self.class.spec_rel_size())
    }

    /// The records of the table, in order.
    pub open spec fn spec_entries(&self) -> Seq<ElfRel> {
        Seq::new(self.spec_len() as nat, |i: int| self.spec_entry(i))
    }

    pub fn len(&self) -> (r: usize)
        ensures
            r == self.spec_len(),
    {
        self.raw.len() / self.class.rel_size()
    }

    /// Reads the record with number `i`.
    pub fn get(&self, i: usize) -> (r: ElfRel)
        requires
            i < self.spec_len(),
        ensures
            r == self.spec_entry(i as int),
    {
        let size: usize = self.class.rel_size();
        let n: usize = self.raw.len();
        proof {
            lemma_record_fits(n as int, size as int, i as int);
        }
        ElfRel::decode(self.class, self.raw, i * size)
    }

    /// Reads every record of the table.
    pub fn entries(&self) -> (r: Vec<ElfRel>)
        ensures
            r@ == self.spec_entries(),
    {
        let n: usize = self.len();
        let mut out: Vec<ElfRel> = Vec::new();
        let mut i: usize = 0;
        while i < n
            invariant
                n == self.spec_len(),
                i <= n,
                out@.len() == i,
                forall|k: int| 0 <= k < i ==> out@[k] == self.spec_entry(k),
            decreases n - i,
        {
            out.push(self.get(i));
            i = i + 1;
        }
        assert(out@ =~= self.spec_entries());
        out
    }
}

/// A table of relocations with addend.
#[derive(Clone, Copy)]
pub struct DynamicAddendRelocations<'a> {
    pub raw: &'a [u8],
    pub class: ElfClass,
}

impl<'a> DynamicAddendRelocations<'a> {
    /// The number of whole records in the table.
    pub open spec fn spec_len(&self) -> int {
        self.raw@.len() as int / self.class.spec_rela_size() as int
    }

    /// The record with number `i`.
    pub open spec fn spec_entry(&self, i: int) -> ElfRela {
        ElfRela::spec_decode(self.class, self.raw@, i * self.class.spec_rela_size())
    }

    /// The records of the table, in order.
    pub open spec fn spec_entries(&self) -> Seq<ElfRela> {
        Seq::new(self.spec_len() as nat, |i: int| self.spec_entry(i))
    }

    pub fn len(&self) -> (r: usize)
        ensures
            r == self.spec_len(),
    {
        self.raw.len() / self.class.rela_size()
    }

    /// Reads the record with number `i`.
    pub fn get(&self, i: usize) -> (r: ElfRela)
        requires
            i < self.spec_len(),
        ensures
            r == self.spec_entry(i as int),
    {
        let size: usize = self.class.rela_size();
        let n: usize = self.raw.len();
        proof {
            lemma_record_fits(n as int, size as int, i as int);
        }
        ElfRela::decode(self.class, self.raw, i * size)
    }

    /// Reads every record of the table.
    pub fn entries(&self) -> (r: Vec<ElfRela>)
        ensures
            r@ == self.spec_entries(),
    {
        let n: usize = self.len();
        let mut out: Vec<ElfRela> = Vec::new();
        let mut i: usize = 0;
        while i < n
            invariant
                n == self.spec_len(),
                i <= n,
                out@.len() == i,
                forall|k: int| 0 <= k < i ==> out@[k] == self.spec_entry(k),
            decreases n - i,
        {
            out.push(self.get(i));
            i = i + 1;
        }
        assert(out@ =~= self.spec_entries());
        out
    }
}

/// What a relocation table is, apart from where its bytes are kept: the
/// bytes, the word width, and the shape of its records.
pub struct TableModel {
    pub bytes: Seq<u8>,
    pub class: ElfClass,
    pub addend: bool,
}

impl TableModel {
    /// Bytes that one record takes.
    pub open spec fn record_size(&self) -> int {
        if self.addend {
            self.class.spec_rela_size() as int
        } else {
            self.class.spec_rel_size() as int
        }
    }

    /// The number of whole records in the table.
    pub open spec fn len(&self) -> int {
        self.bytes.len() as int / self.record_size()
    }

    /// The record with number `i`.
    pub open spec fn entry(&self, i: int) -> RelocationRef {
        if self.addend {
            RelocationRef::WithAddend(
                ElfRela::spec_decode(self.class, self.bytes, i * self.record_size()),
            )
        } else {
            RelocationRef::WithoutAddend(
                ElfRel::spec_decode(self.class, self.bytes, i * self.record_size()),
            )
        }
    }

    /// Whether the record with number `i` names a symbol called `name` and,
    /// where a relocation type is asked for, has that type.
    pub open spec fn entry_matches(
        &self,
        memory: &ProcessMemory,
        symtab: u64,
        strings: Seq<u8>,
        name: Seq<u8>,
        wanted: Option<u32>,
        i: int,
    ) -> bool {
        let e = self.entry(i);
        &&& wanted matches Some(t) ==> e.spec_symbol_type() == t
        &&& symbol_name(memory, symtab, e.spec_symbol_index() as int, strings) == Some(name)
    }

    /// The number of the first record at or after `from` that matches.
    pub open spec fn first_match_from(
        &self,
        memory: &ProcessMemory,
        symtab: u64,
        strings: Seq<u8>,
        name: Seq<u8>,
        wanted: Option<u32>,
        from: int,
    ) -> Option<int>
        decreases self.len() - from,
    {
        if from < 0 || from >= self.len() {
            None
        } else if self.entry_matches(memory, symtab, strings, name, wanted, from) {
            Some(from)
        } else {
            self.first_match_from(memory, symtab, strings, name, wanted, from + 1)
        }
    }

    /// The first record that matches.
    pub open spec fn find(
        &self,
        memory: &ProcessMemory,
        symtab: u64,
        strings: Seq<u8>,
        name: Seq<u8>,
        wanted: Option<u32>,
    ) -> Option<RelocationRef> {
        match self.first_match_from(memory, symtab, strings, name, wanted, 0) {
            Some(i) => Some(self.entry(i)),
            None => None,
        }
    }
}

/// A table of relocations of one of the two shapes.
#[derive(Clone, Copy)]
pub enum RelocationTable<'a> {
    WithAddend(DynamicAddendRelocations<'a>),
    WithoutAddend(DynamicRelocations<'a>),
}

impl<'a> View for RelocationTable<'a> {
    type V = TableModel;

    open spec fn view(&self) -> TableModel {
        match self {
            RelocationTable::WithAddend(t) => TableModel {
                bytes: t.raw@,
                class: t.class,
                addend: true,
            },
            RelocationTable::WithoutAddend(t) => TableModel {
                bytes: t.raw@,
                class: t.class,
                addend: false,
            },
        }
    }
}

impl<'a> RelocationTable<'a> {
    pub fn len(&self) -> (r: usize)
        ensures
            r == self@.len(),
    {
        match self {
            RelocationTable::WithAddend(t) => t.len(),
            RelocationTable::WithoutAddend(t) => t.len(),
        }
    }

    /// Reads the record with number `i`.
    pub fn get(&self, i: usize) -> (r: RelocationRef)
        requires
            i < self@.len(),
        ensures
            r == self@.entry(i as int),
    {
        match self {
            RelocationTable::WithAddend(t) => RelocationRef::WithAddend(t.get(i)),
            RelocationTable::WithoutAddend(t) => RelocationRef::WithoutAddend(t.get(i)),
        }
    }

    /// Looks for the first record that names a symbol called `name` and,
    /// where `wanted` holds a relocation type, has that type.
    pub fn find(
        &self,
        symbols: &DynamicSymbols<'a>,
        strings: &StringTableView<'a>,
        name: &[u8],
        wanted: Option<u32>,
    ) -> (r: Option<RelocationRef>)
        ensures
            r == self@.find(symbols.memory, symbols.address, strings.raw@, name@, wanted),
    {
        let n: usize = self.len();
        let mut i: usize = 0;
        while i < n
            invariant
                n == self@.len(),
                i <= n,
                self@.first_match_from(
                    symbols.memory,
                    symbols.address,
                    strings.raw@,
                    name@,
                    wanted,
                    0,
                ) == self@.first_match_from(
                    symbols.memory,
                    symbols.address,
                    strings.raw@,
                    name@,
                    wanted,
                    i as int,
                ),
            decreases n - i,
        {
            let e = self.get(i);
            let type_fits = match wanted {
                Some(t) => e.symbol_type() == t,
                None => true,
            };
            if type_fits {
                match symbols.resolve_name(e.symbol_index() as usize, strings) {
                    Some(found) => {
                        if bytes_eq(found, name) {
                            return Some(e);
                        }
                    },
                    None => {},
                }
            }
            i = i + 1;
        }
        None
    }
}

/// The relocation that names `name`: the first match in the table of the
/// object's own relocations or, where that has none, the first match among
/// the relocations of the procedure linkage table. `wanted` holds the
/// relocation types that are asked for in the one and in the other table.
pub open spec fn spec_resolve(
    memory: &ProcessMemory,
    symtab: u64,
    strings: Seq<u8>,
    relocs: Option<TableModel>,
    plt: Option<TableModel>,
    name: Seq<u8>,
    wanted: Option<(u32, u32)>,
) -> Option<RelocationRef> {
    let first = match relocs {
        Some(t) => t.find(
            memory,
            symtab,
            strings,
            name,
            match wanted {
                Some(w) => Some(w.0),
                None => None,
            },
        ),
        None => None,
    };
    if first is Some {
        first
    } else {
        match plt {
            Some(t) => t.find(
                memory,
                symtab,
                strings,
                name,
                match wanted {
                    Some(w) => Some(w.1),
                    None => None,
                },
            ),
            None => None,
        }
    }
}

/// The view of a table that may be missing.
pub open spec fn model_of<'a>(table: Option<RelocationTable<'a>>) -> Option<TableModel> {
    match table {
        Some(t) => Some(t@),
        None => None,
    }
}

/// Looks for the relocation that names `name`, in the object's own
/// relocations first and in those of the procedure linkage table after.
pub fn resolve<'a>(
    symbols: &DynamicSymbols<'a>,
    strings: &StringTableView<'a>,
    relocs: Option<RelocationTable<'a>>,
    plt: Option<RelocationTable<'a>>,
    name: &[u8],
    wanted: Option<(u32, u32)>,
) -> (r: Option<RelocationRef>)
    ensures
        r == spec_resolve(
            symbols.memory,
            symbols.address,
            strings.raw@,
            model_of(relocs),
            model_of(plt),
            name@,
            wanted,
        ),
{
    let first = match relocs {
        Some(t) => t.find(
            symbols,
            strings,
            name,
            match wanted {
                Some(w) => Some(w.0),
                None => None,
            },
        ),
        None => None,
    };
    if first.is_some() {
        return first;
    }
    match plt {
        Some(t) => t.find(
            symbols,
            strings,
            name,
            match wanted {
                Some(w) => Some(w.1),
                None => None,
            },
        ),
        None => None,
    }
}

} // verus!

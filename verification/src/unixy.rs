//! The word width and the machine of a process, and the ELF records read at
//! that width.

use crate::bytes::{le_u32, le_u64, read_u32, read_u64};
use crate::elf32;
use crate::elf64;
use vstd::prelude::*;
use vstd::std_specs::convert::FromSpecImpl;

verus! {

pub type ElfAddr = u64;

pub type ElfWord = u32;

pub type ElfXword = u64;

pub type ElfSxword = i64;

pub type ElfSword = i32;

pub type ElfHalf = u16;

/// The program-header type of a loadable segment.
pub const PT_LOAD: u32 = 1;

/// The program-header type of the dynamic section.
pub const PT_DYNAMIC: u32 = 2;

/// The flag of a segment that may be read.
pub const PF_R: u32 = 4;

/// The width of a machine word of the process.
#[derive(Debug, Clone, Copy, PartialEq, Eq, Structural)]
pub enum ElfClass {
    Elf32,
    Elf64,
}

/// The instruction set of the process, which fixes the relocation numbers.
#[derive(Debug, Clone, Copy, PartialEq, Eq, Structural)]
pub enum Machine {
    /// x86 and x86-64.
    X86,
    Arm,
    AArch64,
}

/// What the records of a process depend on: its word width and its machine.
#[derive(Debug, Clone, Copy, PartialEq, Eq, Structural)]
pub struct Target {
    pub class: ElfClass,
    pub machine: Machine,
}

impl Machine {
    /// The relocation type of an eagerly bound import.
    pub open spec fn spec_glob_dat(self) -> u32 {
        match self {
            Machine::X86 => 6,
            Machine::Arm => 21,
            Machine::AArch64 => 1025,
        }
    }

    /// The relocation type of a lazily bound import.
    pub open spec fn spec_jump_slot(self) -> u32 {
        match self {
            Machine::X86 => 7,
            Machine::Arm => 22,
            Machine::AArch64 => 1026,
        }
    }

    #[verifier::when_used_as_spec(spec_glob_dat)]
    pub fn glob_dat(self) -> (r: u32)
        ensures
            r == self.spec_glob_dat(),
    {
        match self {
            Machine::X86 => 6,
            Machine::Arm => 21,
            Machine::AArch64 => 1025,
        }
    }

    #[verifier::when_used_as_spec(spec_jump_slot)]
    pub fn jump_slot(self) -> (r: u32)
        ensures
            r == self.spec_jump_slot(),
    {
        match self {
            Machine::X86 => 7,
            Machine::Arm => 22,
            Machine::AArch64 => 1026,
        }
    }
}

impl ElfClass {
    /// The number of addresses of the word width.
    pub open spec fn word_limit(self) -> int {
        match self {
            ElfClass::Elf32 => 0x1_0000_0000,
            ElfClass::Elf64 => 0x1_0000_0000_0000_0000,
        }
    }

    /// Bytes taken by a machine word.
    pub open spec fn spec_word_size(self) -> usize {
        match self {
            ElfClass::Elf32 => 4,
            ElfClass::Elf64 => 8,
        }
    }

    /// Bytes taken by a dynamic-section entry.
    pub open spec fn spec_dyn_size(self) -> usize {
        match self {
            ElfClass::Elf32 => elf32::DYN_ENTRY_SIZE,
            ElfClass::Elf64 => elf64::DYN_ENTRY_SIZE,
        }
    }

    /// Bytes taken by a symbol.
    pub open spec fn spec_sym_size(self) -> usize {
        match self {
            ElfClass::Elf32 => elf32::DYN_SYM_SIZE,
            ElfClass::Elf64 => elf64::DYN_SYM_SIZE,
        }
    }

    /// Bytes taken by a relocation without an addend.
    pub open spec fn spec_rel_size(self) -> usize {
        match self {
            ElfClass::Elf32 => elf32::DYN_REL_SIZE,
            ElfClass::Elf64 => elf64::DYN_REL_SIZE,
        }
    }

    /// Bytes taken by a relocation with an addend.
    pub open spec fn spec_rela_size(self) -> usize {
        match self {
            ElfClass::Elf32 => elf32::DYN_RELA_SIZE,
            ElfClass::Elf64 => elf64::DYN_RELA_SIZE,
        }
    }

    /// The sum of two addresses, as a machine word holds it: reduced by the
    /// number of addresses of the word width.
    pub open spec fn spec_sum(self, base: u64, offset: u64) -> u64 {
        ((base + offset) % self.word_limit()) as u64
    }

    #[verifier::when_used_as_spec(spec_word_size)]
    pub fn word_size(self) -> (r: usize)
        ensures
            r == self.spec_word_size(),
    {
        match self {
            ElfClass::Elf32 => 4,
            ElfClass::Elf64 => 8,
        }
    }

    #[verifier::when_used_as_spec(spec_dyn_size)]
    pub fn dyn_size(self) -> (r: usize)
        ensures
            r == self.spec_dyn_size(),
    {
        match self {
            ElfClass::Elf32 => elf32::DYN_ENTRY_SIZE,
            ElfClass::Elf64 => elf64::DYN_ENTRY_SIZE,
        }
    }

    #[verifier::when_used_as_spec(spec_sym_size)]
    pub fn sym_size(self) -> (r: usize)
        ensures
            r == self.spec_sym_size(),
    {
        match self {
            ElfClass::Elf32 => elf32::DYN_SYM_SIZE,
            ElfClass::Elf64 => elf64::DYN_SYM_SIZE,
        }
    }

    #[verifier::when_used_as_spec(spec_rel_size)]
    pub fn rel_size(self) -> (r: usize)
        ensures
            r == self.spec_rel_size(),
    {
        match self {
            ElfClass::Elf32 => elf32::DYN_REL_SIZE,
            ElfClass::Elf64 => elf64::DYN_REL_SIZE,
        }
    }

    #[verifier::when_used_as_spec(spec_rela_size)]
    pub fn rela_size(self) -> (r: usize)
        ensures
            r == self.spec_rela_size(),
    {
        match self {
            ElfClass::Elf32 => elf32::DYN_RELA_SIZE,
            ElfClass::Elf64 => elf64::DYN_RELA_SIZE,
        }
    }

    /// Adds an offset to a base address at the word width.
    #[verifier::when_used_as_spec(spec_sum)]
    pub fn sum(self, base: u64, offset: u64) -> (r: u64)
        ensures
            r == self.spec_sum(base, offset),
            base + offset < self.word_limit() ==> r == base + offset,
    {
        match self {
            ElfClass::Elf32 => {
                (base % 0x1_0000_0000 + offset % 0x1_0000_0000) % 0x1_0000_0000
            },
            ElfClass::Elf64 => base.wrapping_add(offset),
        }
    }

    /// The word stored little-endian at `off`, widened to 64 bits.
    pub open spec fn spec_word_at(self, s: Seq<u8>, off: int) -> u64 {
        match self {
            ElfClass::Elf32 => le_u32(s, off) as u64,
            ElfClass::Elf64 => le_u64(s, off) as u64,
        }
    }

    /// Reads the word stored at `off`.
    pub fn word_at(self, s: &[u8], off: usize) -> (r: u64)
        requires
            off + self.spec_word_size() <= s@.len(),
        ensures
            r == self.spec_word_at(s@, off as int),
    {
        match self {
            ElfClass::Elf32 => read_u32(s, off) as u64,
            ElfClass::Elf64 => read_u64(s, off),
        }
    }
}

/// A program header of either width.
#[derive(Debug, Clone, Copy, PartialEq, Eq, Structural)]
pub enum ElfPhdr {
    Elf32(elf32::ProgramHeader),
    Elf64(elf64::ProgramHeader),
}

impl ElfPhdr {
    /// The word width that the header was read at.
    pub open spec fn spec_class(&self) -> ElfClass {
        match self {
            ElfPhdr::Elf32(_) => ElfClass::Elf32,
            ElfPhdr::Elf64(_) => ElfClass::Elf64,
        }
    }

    pub open spec fn spec_p_type(&self) -> u32 {
        match self {
            ElfPhdr::Elf32(h) => h.p_type,
            ElfPhdr::Elf64(h) => h.p_type,
        }
    }

    pub open spec fn spec_p_flags(&self) -> u32 {
        match self {
            ElfPhdr::Elf32(h) => h.p_flags,
            ElfPhdr::Elf64(h) => h.p_flags,
        }
    }

    pub open spec fn spec_p_vaddr(&self) -> u64 {
        match self {
            ElfPhdr::Elf32(h) => h.p_vaddr as u64,
            ElfPhdr::Elf64(h) => h.p_vaddr,
        }
    }

    pub open spec fn spec_p_memsz(&self) -> u64 {
        match self {
            ElfPhdr::Elf32(h) => h.p_memsz as u64,
            ElfPhdr::Elf64(h) => h.p_memsz,
        }
    }

    /// The word width that the header was read at.
    #[verifier::when_used_as_spec(spec_class)]
    pub fn class(&self) -> (r: ElfClass)
        ensures
            r == self.spec_class(),
    {
        match self {
            ElfPhdr::Elf32(_) => ElfClass::Elf32,
            ElfPhdr::Elf64(_) => ElfClass::Elf64,
        }
    }

    /// The kind of segment.
    #[verifier::when_used_as_spec(spec_p_type)]
    pub fn p_type(&self) -> (r: u32)
        ensures
            r == self.spec_p_type(),
    {
        match self {
            ElfPhdr::Elf32(h) => h.p_type,
            ElfPhdr::Elf64(h) => h.p_type,
        }
    }

    /// What may be done with the segment.
    #[verifier::when_used_as_spec(spec_p_flags)]
    pub fn p_flags(&self) -> (r: u32)
        ensures
            r == self.spec_p_flags(),
    {
        match self {
            ElfPhdr::Elf32(h) => h.p_flags,
            ElfPhdr::Elf64(h) => h.p_flags,
        }
    }

    /// Where the segment lies, before the load bias is added.
    #[verifier::when_used_as_spec(spec_p_vaddr)]
    pub fn p_vaddr(&self) -> (r: u64)
        ensures
            r == self.spec_p_vaddr(),
    {
        match self {
            ElfPhdr::Elf32(h) => h.p_vaddr as u64,
            ElfPhdr::Elf64(h) => h.p_vaddr,
        }
    }

    /// Bytes that the segment takes in memory.
    #[verifier::when_used_as_spec(spec_p_memsz)]
    pub fn p_memsz(&self) -> (r: u64)
        ensures
            r == self.spec_p_memsz(),
    {
        match self {
            ElfPhdr::Elf32(h) => h.p_memsz as u64,
            ElfPhdr::Elf64(h) => h.p_memsz,
        }
    }
}

/// A dynamic-section entry of either width.
#[derive(Debug, Clone, Copy, PartialEq, Eq, Structural)]
pub enum ElfDyn {
    Elf32(elf32::DynEntry),
    Elf64(elf64::DynEntry),
}

impl ElfDyn {
    /// The tag as a signed number: a 64-bit tag field is read in two's
    /// complement.
    pub open spec fn spec_d_tag(&self) -> i64 {
        match self {
            ElfDyn::Elf32(e) => e.d_tag as i64,
            ElfDyn::Elf64(e) => crate::bytes::signed64(e.d_tag as int) as i64,
        }
    }

    pub open spec fn spec_d_val(&self) -> u64 {
        match self {
            ElfDyn::Elf32(e) => e.d_val_ptr as u64,
            ElfDyn::Elf64(e) => e.d_val_ptr,
        }
    }

    /// The entry whose bytes start at `off`.
    pub open spec fn spec_decode(class: ElfClass, s: Seq<u8>, off: int) -> ElfDyn {
        match class {
            ElfClass::Elf32 => ElfDyn::Elf32(elf32::DynEntry::spec_decode(s, off)),
            ElfClass::Elf64 => ElfDyn::Elf64(elf64::DynEntry::spec_decode(s, off)),
        }
    }

    #[verifier::when_used_as_spec(spec_d_tag)]
    pub fn d_tag(&self) -> (r: ElfSxword)
        ensures
            r == self.spec_d_tag(),
    {
        match self {
            ElfDyn::Elf32(e) => e.d_tag as i64,
            ElfDyn::Elf64(e) => crate::bytes::to_i64(e.d_tag),
        }
    }

    #[verifier::when_used_as_spec(spec_d_val)]
    pub fn d_val(&self) -> (r: ElfXword)
        ensures
            r == self.spec_d_val(),
    {
        match self {
            ElfDyn::Elf32(e) => e.d_val_ptr as u64,
            ElfDyn::Elf64(e) => e.d_val_ptr,
        }
    }

    pub fn decode(class: ElfClass, s: &[u8], off: usize) -> (r: ElfDyn)
        requires
            off + class.spec_dyn_size() <= s@.len(),
        ensures
            r == Self::spec_decode(class, s@, off as int),
    {
        match class {
            ElfClass::Elf32 => ElfDyn::Elf32(elf32::DynEntry::decode(s, off)),
            ElfClass::Elf64 => ElfDyn::Elf64(elf64::DynEntry::decode(s, off)),
        }
    }
}

/// A symbol of either width.
#[derive(Debug, Clone, Copy, PartialEq, Eq, Structural)]
pub enum ElfSym {
    Elf32(elf32::DynSym),
    Elf64(elf64::DynSym),
}

impl ElfSym {
    pub open spec fn spec_st_name(&self) -> u32 {
        match self {
            ElfSym::Elf32(s) => s.st_name,
            ElfSym::Elf64(s) => s.st_name,
        }
    }

    /// The symbol whose bytes start at `off`.
    pub open spec fn spec_decode(class: ElfClass, s: Seq<u8>, off: int) -> ElfSym {
        match class {
            ElfClass::Elf32 => ElfSym::Elf32(elf32::DynSym::spec_decode(s, off)),
            ElfClass::Elf64 => ElfSym::Elf64(elf64::DynSym::spec_decode(s, off)),
        }
    }

    /// Where the symbol's name starts in the string table.
    #[verifier::when_used_as_spec(spec_st_name)]
    pub fn st_name(&self) -> (r: ElfWord)
        ensures
            r == self.spec_st_name(),
    {
        match self {
            ElfSym::Elf32(s) => s.st_name,
            ElfSym::Elf64(s) => s.st_name,
        }
    }

    pub fn decode(class: ElfClass, s: &[u8], off: usize) -> (r: ElfSym)
        requires
            off + class.spec_sym_size() <= s@.len(),
        ensures
            r == Self::spec_decode(class, s@, off as int),
    {
        match class {
            ElfClass::Elf32 => ElfSym::Elf32(elf32::DynSym::decode(s, off)),
            ElfClass::Elf64 => ElfSym::Elf64(elf64::DynSym::decode(s, off)),
        }
    }
}

/// A relocation without an addend, of either width.
#[derive(Debug, Clone, Copy, PartialEq, Eq, Structural)]
pub enum ElfRel {
    Elf32(elf32::DynRel),
    Elf64(elf64::DynRel),
}

impl ElfRel {
    pub open spec fn spec_r_offset(&self) -> u64 {
        match self {
            ElfRel::Elf32(r) => r.r_offset as u64,
            ElfRel::Elf64(r) => r.r_offset,
        }
    }

    pub open spec fn spec_symbol_index(&self) -> u32 {
        match self {
            ElfRel::Elf32(r) => elf32::info_symbol(r.r_info),
            ElfRel::Elf64(r) => elf64::info_symbol(r.r_info),
        }
    }

    pub open spec fn spec_symbol_type(&self) -> u32 {
        match self {
            ElfRel::Elf32(r) => elf32::info_type(r.r_info),
            ElfRel::Elf64(r) => elf64::info_type(r.r_info),
        }
    }

    /// The relocation whose bytes start at `off`.
    pub open spec fn spec_decode(class: ElfClass, s: Seq<u8>, off: int) -> ElfRel {
        match class {
            ElfClass::Elf32 => ElfRel::Elf32(elf32::DynRel::spec_decode(s, off)),
            ElfClass::Elf64 => ElfRel::Elf64(elf64::DynRel::spec_decode(s, off)),
        }
    }

    /// Where the slot lies, before the load bias is added.
    #[verifier::when_used_as_spec(spec_r_offset)]
    pub fn r_offset(&self) -> (r: ElfAddr)
        ensures
            r == self.spec_r_offset(),
    {
        match self {
            ElfRel::Elf32(r) => r.r_offset as u64,
            ElfRel::Elf64(r) => r.r_offset,
        }
    }

    /// The number of the symbol that the relocation names.
    #[verifier::when_used_as_spec(spec_symbol_index)]
    pub fn symbol_index(&self) -> (r: ElfWord)
        ensures
            r == self.spec_symbol_index(),
    {
        match self {
            ElfRel::Elf32(r) => r.symbol_index(),
            ElfRel::Elf64(r) => r.symbol_index(),
        }
    }

    /// The kind of relocation.
    #[verifier::when_used_as_spec(spec_symbol_type)]
    pub fn symbol_type(&self) -> (r: ElfWord)
        ensures
            r == self.spec_symbol_type(),
    {
        match self {
            ElfRel::Elf32(r) => r.symbol_type(),
            ElfRel::Elf64(r) => r.symbol_type(),
        }
    }

    pub fn decode(class: ElfClass, s: &[u8], off: usize) -> (r: ElfRel)
        requires
            off + class.spec_rel_size() <= s@.len(),
        ensures
            r == Self::spec_decode(class, s@, off as int),
    {
        match class {
            ElfClass::Elf32 => ElfRel::Elf32(elf32::DynRel::decode(s, off)),
            ElfClass::Elf64 => ElfRel::Elf64(elf64::DynRel::decode(s, off)),
        }
    }
}

/// A relocation with an addend, of either width.
#[derive(Debug, Clone, Copy, PartialEq, Eq, Structural)]
pub enum ElfRela {
    Elf32(elf32::DynRela),
    Elf64(elf64::DynRela),
}

impl ElfRela {
    pub open spec fn spec_r_offset(&self) -> u64 {
        match self {
            ElfRela::Elf32(r) => r.r_offset as u64,
            ElfRela::Elf64(r) => r.r_offset,
        }
    }

    pub open spec fn spec_r_addend(&self) -> i64 {
        match self {
            ElfRela::Elf32(r) => r.r_addend as i64,
            ElfRela::Elf64(r) => r.r_addend,
        }
    }

    pub open spec fn spec_symbol_index(&self) -> u32 {
        match self {
            ElfRela::Elf32(r) => elf32::info_symbol(r.r_info),
            ElfRela::Elf64(r) => elf64::info_symbol(r.r_info),
        }
    }

    pub open spec fn spec_symbol_type(&self) -> u32 {
        match self {
            ElfRela::Elf32(r) => elf32::info_type(r.r_info),
            ElfRela::Elf64(r) => elf64::info_type(r.r_info),
        }
    }

    /// The relocation whose bytes start at `off`.
    pub open spec fn spec_decode(class: ElfClass, s: Seq<u8>, off: int) -> ElfRela {
        match class {
            ElfClass::Elf32 => ElfRela::Elf32(elf32::DynRela::spec_decode(s, off)),
            ElfClass::Elf64 => ElfRela::Elf64(elf64::DynRela::spec_decode(s, off)),
        }
    }

    /// Where the slot lies, before the load bias is added.
    #[verifier::when_used_as_spec(spec_r_offset)]
    pub fn r_offset(&self) -> (r: ElfAddr)
        ensures
            r == self.spec_r_offset(),
    {
        match self {
            ElfRela::Elf32(r) => r.r_offset as u64,
            ElfRela::Elf64(r) => r.r_offset,
        }
    }

    /// The constant that the relocation adds.
    #[verifier::when_used_as_spec(spec_r_addend)]
    pub fn r_addend(&self) -> (r: ElfSxword)
        ensures
            r == self.spec_r_addend(),
    {
        match self {
            ElfRela::Elf32(r) => r.r_addend as i64,
            ElfRela::Elf64(r) => r.r_addend,
        }
    }

    /// The number of the symbol that the relocation names.
    #[verifier::when_used_as_spec(spec_symbol_index)]
    pub fn symbol_index(&self) -> (r: ElfWord)
        ensures
            r == self.spec_symbol_index(),
    {
        match self {
            ElfRela::Elf32(r) => r.symbol_index(),
            ElfRela::Elf64(r) => r.symbol_index(),
        }
    }

    /// The kind of relocation.
    #[verifier::when_used_as_spec(spec_symbol_type)]
    pub fn symbol_type(&self) -> (r: ElfWord)
        ensures
            r == self.spec_symbol_type(),
    {
        match self {
            ElfRela::Elf32(r) => r.symbol_type(),
            ElfRela::Elf64(r) => r.symbol_type(),
        }
    }

    pub fn decode(class: ElfClass, s: &[u8], off: usize) -> (r: ElfRela)
        requires
            off + class.spec_rela_size() <= s@.len(),
        ensures
            r == Self::spec_decode(class, s@, off as int),
    {
        match class {
            ElfClass::Elf32 => ElfRela::Elf32(elf32::DynRela::decode(s, off)),
            ElfClass::Elf64 => ElfRela::Elf64(elf64::DynRela::decode(s, off)),
        }
    }
}

/// A tag of the dynamic section that the link-map interface looks for.
#[derive(Debug, Clone, Copy, PartialEq, Eq, Structural)]
#[allow(non_camel_case_types)]
pub enum SectionType {
    DT_PLTRELSZ,
    DT_PLTGOT,
    DT_STRTAB,
    DT_SYMTAB,
    DT_RELA,
    DT_RELASZ,
    DT_RELAENT,
    DT_REL,
    DT_RELSZ,
    DT_RELENT,
    DT_STRSZ,
    DT_JMPREL,
}

impl SectionType {
    /// The number that stands for the tag in a `d_tag` field.
    pub open spec fn tag(self) -> int {
        match self {
            SectionType::DT_PLTRELSZ => 2,
            SectionType::DT_PLTGOT => 3,
            SectionType::DT_STRTAB => 5,
            SectionType::DT_SYMTAB => 6,
            SectionType::DT_REL => 17,
            SectionType::DT_RELSZ => 18,
            SectionType::DT_RELENT => 19,
            SectionType::DT_RELA => 7,
            SectionType::DT_RELASZ => 8,
            SectionType::DT_RELAENT => 9,
            SectionType::DT_STRSZ => 10,
            SectionType::DT_JMPREL => 23,
        }
    }
}

impl FromSpecImpl<SectionType> for i64 {
    open spec fn obeys_from_spec() -> bool {
        true
    }

    open spec fn from_spec(val: SectionType) -> Self {
        match val {
            SectionType::DT_PLTRELSZ => 2,
            SectionType::DT_PLTGOT => 3,
            SectionType::DT_STRTAB => 5,
            SectionType::DT_SYMTAB => 6,
            SectionType::DT_REL => 17,
            SectionType::DT_RELSZ => 18,
            SectionType::DT_RELENT => 19,
            SectionType::DT_RELA => 7,
            SectionType::DT_RELASZ => 8,
            SectionType::DT_RELAENT => 9,
            SectionType::DT_STRSZ => 10,
            SectionType::DT_JMPREL => 23,
        }
    }
}

impl From<SectionType> for i64 {
    fn from(val: SectionType) -> (r: Self) {
        match val {
            SectionType::DT_PLTRELSZ => 2,
            SectionType::DT_PLTGOT => 3,
            SectionType::DT_STRTAB => 5,
            SectionType::DT_SYMTAB => 6,
            SectionType::DT_REL => 17,
            SectionType::DT_RELSZ => 18,
            SectionType::DT_RELENT => 19,
            SectionType::DT_RELA => 7,
            SectionType::DT_RELASZ => 8,
            SectionType::DT_RELAENT => 9,
            SectionType::DT_STRSZ => 10,
            SectionType::DT_JMPREL => 23,
        }
    }
}

impl FromSpecImpl<SectionType> for i32 {
    open spec fn obeys_from_spec() -> bool {
        true
    }

    open spec fn from_spec(val: SectionType) -> Self {
        match val {
            SectionType::DT_PLTRELSZ => 2,
            SectionType::DT_PLTGOT => 3,
            SectionType::DT_STRTAB => 5,
            SectionType::DT_SYMTAB => 6,
            SectionType::DT_RELA => 7,
            SectionType::DT_RELASZ => 8,
            SectionType::DT_RELAENT => 9,
            SectionType::DT_STRSZ => 10,
            SectionType::DT_JMPREL => 23,
            SectionType::DT_REL => 17,
            SectionType::DT_RELSZ => 18,
            SectionType::DT_RELENT => 19,
        }
    }
}

impl From<SectionType> for i32 {
    fn from(val: SectionType) -> (r: Self) {
        match val {
            SectionType::DT_PLTRELSZ => 2,
            SectionType::DT_PLTGOT => 3,
            SectionType::DT_STRTAB => 5,
            SectionType::DT_SYMTAB => 6,
            SectionType::DT_RELA => 7,
            SectionType::DT_RELASZ => 8,
            SectionType::DT_RELAENT => 9,
            SectionType::DT_STRSZ => 10,
            SectionType::DT_JMPREL => 23,
            SectionType::DT_REL => 17,
            SectionType::DT_RELSZ => 18,
            SectionType::DT_RELENT => 19,
        }
    }
}

/// At either width a tag turns into the number that stands for it.
pub proof fn lemma_section_tag(val: SectionType)
    ensures
        <i64 as vstd::std_specs::convert::FromSpec<SectionType>>::from_spec(val) == val.tag(),
        <i32 as vstd::std_specs::convert::FromSpec<SectionType>>::from_spec(val) == val.tag(),
{
}

/// One node of the loader's list of loaded objects. Every field but `l_addr`
/// is an address, and 0 where the loader left it empty.
#[derive(Debug, Clone, Copy, PartialEq, Eq, Structural)]
pub struct LinkMap {
    /// The load bias of the object.
    pub l_addr: ElfAddr,
    /// Where the object's name lies, as a NUL-terminated string.
    pub l_name: u64,
    /// Where the object's dynamic section lies.
    pub l_ld: u64,
    pub l_next: u64,
    pub l_prev: u64,
}

impl LinkMap {
    /// Bytes taken by a node.
    pub open spec fn spec_size(class: ElfClass) -> usize {
        match class {
            ElfClass::Elf32 => 20,
            ElfClass::Elf64 => 40,
        }
    }

    /// The node whose bytes start at `off`: five words in a row.
    pub open spec fn spec_decode(class: ElfClass, s: Seq<u8>, off: int) -> LinkMap {
        let w = class.spec_word_size() as int;
        LinkMap {
            l_addr: class.spec_word_at(s, off),
            l_name: class.spec_word_at(s, off + w),
            l_ld: class.spec_word_at(s, off + 2 * w),
            l_next: class.spec_word_at(s, off + 3 * w),
            l_prev: class.spec_word_at(s, off + 4 * w),
        }
    }

    #[verifier::when_used_as_spec(spec_size)]
    pub fn size(class: ElfClass) -> (r: usize)
        ensures
            r == Self::spec_size(class),
    {
        match class {
            ElfClass::Elf32 => 20,
            ElfClass::Elf64 => 40,
        }
    }

    pub fn decode(class: ElfClass, s: &[u8], off: usize) -> (r: LinkMap)
        requires
            off + Self::spec_size(class) <= s@.len(),
        ensures
            r == Self::spec_decode(class, s@, off as int),
    {
        let n: usize = s.len();
        let w: usize = class.word_size();
        assert(off + 5 * w <= n);
        LinkMap {
            l_addr: class.word_at(s, off),
            l_name: class.word_at(s, off + w),
            l_ld: class.word_at(s, off + 2 * w),
            l_next: class.word_at(s, off + 3 * w),
            l_prev: class.word_at(s, off + 4 * w),
        }
    }
}

} // verus!

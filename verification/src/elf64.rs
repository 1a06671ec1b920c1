//! The records of a 64-bit ELF object, as they lie in memory.

use crate::bytes::{le_u16, le_u32, le_u64, read_u16, read_u32, read_u64, signed64, to_i64};
use crate::dynamic::DynamicSectionType;
use vstd::prelude::*;

verus! {

pub type Word = u32;

pub type Half = u16;

pub type Addr = u64;

pub type ExtendedWord = u64;

pub type ExtendedSignedWord = i64;

/// Bytes taken by one [`DynEntry`].
pub const DYN_ENTRY_SIZE: usize = 16;

/// Bytes taken by one [`DynSym`].
pub const DYN_SYM_SIZE: usize = 24;

/// Bytes taken by one [`DynRel`].
pub const DYN_REL_SIZE: usize = 16;

/// Bytes taken by one [`DynRela`].
pub const DYN_RELA_SIZE: usize = 24;

/// One entry of the program-header table.
#[derive(Debug, Clone, Copy, PartialEq, Eq, Structural)]
pub struct ProgramHeader {
    pub p_type: Word,
    pub p_flags: Word,
    pub p_offset: ExtendedWord,
    pub p_vaddr: Addr,
    pub p_paddr: Addr,
    pub p_filesz: ExtendedWord,
    pub p_memsz: ExtendedWord,
    pub p_align: ExtendedWord,
}

/// One entry of the dynamic section.
#[derive(Debug, Clone, Copy, PartialEq, Eq, Structural)]
pub struct DynEntry {
    pub d_tag: ExtendedWord,
    /// Either a value or an address.
    pub d_val_ptr: ExtendedWord,
}

/// One entry of the dynamic symbol table.
#[derive(Debug, Clone, Copy, PartialEq, Eq, Structural)]
pub struct DynSym {
    pub st_name: Word,
    pub st_info: u8,
    pub st_other: u8,
    pub st_shndx: Half,
    pub st_value: Addr,
    pub st_size: ExtendedWord,
}

/// A relocation without an addend.
#[derive(Debug, Clone, Copy, PartialEq, Eq, Structural)]
pub struct DynRel {
    pub r_offset: Addr,
    pub r_info: ExtendedWord,
}

/// A relocation with an addend.
#[derive(Debug, Clone, Copy, PartialEq, Eq, Structural)]
pub struct DynRela {
    pub r_offset: Addr,
    pub r_info: ExtendedWord,
    pub r_addend: ExtendedSignedWord,
}

/// The symbol number held in the upper half of an `r_info` field.
pub open spec fn info_symbol(r_info: u64) -> u32 {
    (r_info / 0x1_0000_0000) as u32
}

/// The relocation type held in the lower half of an `r_info` field.
pub open spec fn info_type(r_info: u64) -> u32 {
    (r_info % 0x1_0000_0000) as u32
}

/// An `r_info` field is its symbol number and its relocation type side by side.
pub proof fn lemma_info_parts(r_info: u64)
    ensures
        r_info == info_symbol(r_info) * 0x1_0000_0000 + info_type(r_info),
        info_symbol(r_info) == r_info >> 32,
        info_type(r_info) == r_info & 0xffff_ffff,
{
    assert(r_info >> 32 == r_info / 0x1_0000_0000) by (bit_vector);
    assert(r_info & 0xffff_ffff == r_info % 0x1_0000_0000) by (bit_vector);
}

fn symbol_of(r_info: u64) -> (r: u32)
    ensures
        r == info_symbol(r_info),
{
    proof {
        lemma_info_parts(r_info);
    }
    (r_info >> 32) as u32
}

fn type_of(r_info: u64) -> (r: u32)
    ensures
        r == info_type(r_info),
{
    proof {
        lemma_info_parts(r_info);
    }
    (r_info & 0xffff_ffff) as u32
}

impl DynEntry {
    /// The entry whose bytes start at `off`.
    pub open spec fn spec_decode(s: Seq<u8>, off: int) -> DynEntry {
        DynEntry { d_tag: le_u64(s, off) as u64, d_val_ptr: le_u64(s, off + 8) as u64 }
    }

    pub fn decode(s: &[u8], off: usize) -> (r: DynEntry)
        requires
            off + DYN_ENTRY_SIZE <= s@.len(),
        ensures
            r == Self::spec_decode(s@, off as int),
    {
        let n: usize = s.len();
        assert(off + 16 <= n);
        DynEntry { d_tag: read_u64(s, off), d_val_ptr: read_u64(s, off + 8) }
    }
}

impl DynSym {
    /// The symbol whose bytes start at `off`.
    pub open spec fn spec_decode(s: Seq<u8>, off: int) -> DynSym {
        DynSym {
            st_name: le_u32(s, off) as u32,
            st_info: s[off + 4],
            st_other: s[off + 5],
            st_shndx: le_u16(s, off + 6) as u16,
            st_value: le_u64(s, off + 8) as u64,
            st_size: le_u64(s, off + 16) as u64,
        }
    }

    pub fn decode(s: &[u8], off: usize) -> (r: DynSym)
        requires
            off + DYN_SYM_SIZE <= s@.len(),
        ensures
            r == Self::spec_decode(s@, off as int),
    {
        let n: usize = s.len();
        assert(off + 24 <= n);
        DynSym {
            st_name: read_u32(s, off),
            st_info: s[off + 4],
            st_other: s[off + 5],
            st_shndx: read_u16(s, off + 6),
            st_value: read_u64(s, off + 8),
            st_size: read_u64(s, off + 16),
        }
    }
}

impl DynRel {
    /// The relocation whose bytes start at `off`.
    pub open spec fn spec_decode(s: Seq<u8>, off: int) -> DynRel {
        DynRel { r_offset: le_u64(s, off) as u64, r_info: le_u64(s, off + 8) as u64 }
    }

    pub fn decode(s: &[u8], off: usize) -> (r: DynRel)
        requires
            off + DYN_REL_SIZE <= s@.len(),
        ensures
            r == Self::spec_decode(s@, off as int),
    {
        let n: usize = s.len();
        assert(off + 16 <= n);
        DynRel { r_offset: read_u64(s, off), r_info: read_u64(s, off + 8) }
    }

    /// The number of the symbol that the relocation names.
    pub fn symbol_index(&self) -> (r: Word)
        ensures
            r == info_symbol(self.r_info),
    {
        symbol_of(self.r_info)
    }

    /// The kind of relocation.
    pub fn symbol_type(&self) -> (r: Word)
        ensures
            r == info_type(self.r_info),
    {
        type_of(self.r_info)
    }
}

impl DynRela {
    /// The relocation whose bytes start at `off`.
    pub open spec fn spec_decode(s: Seq<u8>, off: int) -> DynRela {
        DynRela {
            r_offset: le_u64(s, off) as u64,
            r_info: le_u64(s, off + 8) as u64,
            r_addend: signed64(le_u64(s, off + 16)) as i64,
        }
    }

    pub fn decode(s: &[u8], off: usize) -> (r: DynRela)
        requires
            off + DYN_RELA_SIZE <= s@.len(),
        ensures
            r == Self::spec_decode(s@, off as int),
    {
        let n: usize = s.len();
        assert(off + 24 <= n);
        DynRela {
            r_offset: read_u64(s, off),
            r_info: read_u64(s, off + 8),
            r_addend: to_i64(read_u64(s, off + 16)),
        }
    }

    /// The number of the symbol that the relocation names.
    pub fn symbol_index(&self) -> (r: Word)
        ensures
            r == info_symbol(self.r_info),
    {
        symbol_of(self.r_info)
    }

    /// The kind of relocation.
    pub fn symbol_type(&self) -> (r: Word)
        ensures
            r == info_type(self.r_info),
    {
        type_of(self.r_info)
    }
}

/// A number in a tag field that stands for no tag the library reads.
#[derive(Debug, Clone, Copy, PartialEq, Eq, Structural)]
pub struct DynTypeError(pub ExtendedWord);

impl DynamicSectionType {
    /// Reads a number as a tag. A number that stands for no tag the library
    /// reads comes back in the error.
    pub fn try_from(value: ExtendedWord) -> (r: Result<DynamicSectionType, DynTypeError>)
        ensures
            r == match DynamicSectionType::of_tag(value) {
                Some(t) => Ok::<DynamicSectionType, DynTypeError>(t),
                None => Err::<DynamicSectionType, DynTypeError>(DynTypeError(value)),
            },
    {
        match value {
            0 => Ok(DynamicSectionType::DT_NULL),
            2 => Ok(DynamicSectionType::DT_PLTRELSZ),
            3 => Ok(DynamicSectionType::DT_PLTGOT),
            20 => Ok(DynamicSectionType::DT_PLTREL),
            5 => Ok(DynamicSectionType::DT_STRTAB),
            6 => Ok(DynamicSectionType::DT_SYMTAB),
            11 => Ok(DynamicSectionType::DT_SYMENT),
            17 => Ok(DynamicSectionType::DT_REL),
            18 => Ok(DynamicSectionType::DT_RELSZ),
            19 => Ok(DynamicSectionType::DT_RELENT),
            7 => Ok(DynamicSectionType::DT_RELA),
            8 => Ok(DynamicSectionType::DT_RELASZ),
            9 => Ok(DynamicSectionType::DT_RELAENT),
            10 => Ok(DynamicSectionType::DT_STRSZ),
            23 => Ok(DynamicSectionType::DT_JMPREL),
            tag => Err(DynTypeError(tag)),
        }
    }
}

} // verus!
